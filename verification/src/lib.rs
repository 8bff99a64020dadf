//! A Linux x86_64 debugger, verified with Verus.

pub mod aliases;
pub mod backend_laws;
pub mod commands;
pub mod domain;
pub mod engine;
pub mod engine_laws;
pub mod linux;
pub mod metrics;
pub mod number_laws;
pub mod numbers;
pub mod prompt_laws;
pub mod register_laws;
pub mod registers;
pub mod session;
pub mod text;
pub mod text_laws;
