[package]
name = "dbg_rs"
version = "0.1.0"
edition = "2021"
publish = false

[dependencies]
clap = { version = "4.5", features = ["derive"] }
hdrhistogram = { version = "7.5", default-features = false }
nix = { version = "0.31", features = ["fs", "process", "ptrace", "signal"] }
thiserror = "2"
tracing = "0.1"
tracing-subscriber = { version = "0.3", features = ["env-filter", "fmt"] }
