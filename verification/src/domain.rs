//! Debugger domain model and backend contract.
//!
//! These types are what the engine, a backend and the command line speak to each other:
//! process and thread identifiers, stop events, register values, lifecycle policies, errors,
//! and the trait that a backend implements.

use crate::text::{append_decimal, append_digits, append_padded};
#[allow(unused_imports)]
use crate::text::{decimal, digits, zero_padded};
use vstd::prelude::*;
use vstd::string::*;

verus! {

/// `std::io::Error`, carried through as it is.
#[verifier::external_type_specification]
#[verifier::external_body]
pub struct ExIoError(std::io::Error);

/// Domain-level debugger errors.
#[derive(Debug)]
pub enum DebugError {
    /// A process/thread id was non-positive and therefore invalid on Linux.
    InvalidPid(i32),
    /// Operation requires an active inferior, but none is currently owned.
    MissingInferior,
    /// `launch` or `attach` was requested while one inferior is already active.
    InferiorAlreadyActive,
    /// Register name was not recognized by the target register map.
    UnknownRegister(String),
    /// A backend-specific error converted into a string boundary.
    Backend(String),
    /// I/O error bubbled up from standard library operations.
    Io(std::io::Error),
}

impl DebugError {
    /// `message` is the text of this error.
    pub open spec fn reads(self, message: Seq<char>) -> bool {
        match self {
            DebugError::InvalidPid(raw) => message == "invalid pid: "@ + decimal(raw as int),
            DebugError::MissingInferior => message == "no active inferior process"@,
            DebugError::InferiorAlreadyActive => message == "inferior process is already active"@,
            DebugError::UnknownRegister(name) => message == "unknown register: "@ + name@,
            DebugError::Backend(cause) => message == "backend error: "@ + cause@,
            DebugError::Io(err) => exists|cause: String| #[trigger]
                to_string_from_display_ensures::<std::io::Error>(&err, cause) && message
                    == "io error: "@ + cause@,
        }
    }

    /// Convert any displayable backend error into [`DebugError::Backend`].
    pub fn backend<E: std::fmt::Display>(err: E) -> (result: Self)
        ensures
            result matches DebugError::Backend(cause) && to_string_from_display_ensures::<E>(
                &err,
                cause,
            ),
    {
        DebugError::Backend(err.to_string())
    }

    /// The text of this error.
    pub fn to_string(&self) -> (message: String)
        ensures
            self.reads(message@),
    {
        match self {
            DebugError::InvalidPid(raw) => {
                let mut message = "invalid pid: ".to_owned();
                append_decimal(&mut message, *raw as i64);
                message
            },
            DebugError::MissingInferior => "no active inferior process".to_owned(),
            DebugError::InferiorAlreadyActive => "inferior process is already active".to_owned(),
            DebugError::UnknownRegister(name) => "unknown register: ".to_owned().concat(name),
            DebugError::Backend(cause) => "backend error: ".to_owned().concat(cause),
            DebugError::Io(err) => {
                let cause = err.to_string();
                "io error: ".to_owned().concat(&cause)
            },
        }
    }
}

impl From<std::io::Error> for DebugError {
    fn from(err: std::io::Error) -> (result: Self) {
        DebugError::Io(err)
    }
}

impl vstd::std_specs::convert::FromSpecImpl<std::io::Error> for DebugError {
    open spec fn obeys_from_spec() -> bool {
        true
    }

    open spec fn from_spec(err: std::io::Error) -> Self {
        DebugError::Io(err)
    }
}

/// Strongly-typed process id wrapper: always positive.
#[derive(Debug, Clone, Copy, PartialEq, Eq, Structural, Hash)]
pub struct ProcessId {
    raw: i32,
}

impl View for ProcessId {
    type V = int;

    closed spec fn view(&self) -> int {
        self.raw as int
    }
}

impl ProcessId {
    #[verifier::type_invariant]
    spec fn positive(self) -> bool {
        self.raw > 0
    }

    /// Create a new process id from a raw Linux pid.
    pub fn new(raw: i32) -> (result: Result<Self, DebugError>)
        ensures
            raw > 0 ==> (result matches Ok(pid) && pid@ == raw),
            raw <= 0 ==> result == Err::<Self, DebugError>(DebugError::InvalidPid(raw)),
    {
        if raw <= 0 {
            return Err(DebugError::InvalidPid(raw));
        }
        Ok(ProcessId { raw })
    }

    /// Return the raw integer pid value.
    pub fn get(self) -> (raw: i32)
        ensures
            raw == self@,
            raw > 0,
    {
        proof {
            use_type_invariant(self);
        }
        self.raw
    }
}

/// A process id is its number: two with the same number are the same.
pub proof fn process_ids_are_their_numbers(a: ProcessId, b: ProcessId)
    ensures
        a@ == b@ <==> a == b,
{
}

/// Strongly-typed thread id wrapper: always positive.
///
/// Wait events are thread-scoped, so thread ids are represented explicitly.
#[derive(Debug, Clone, Copy, PartialEq, Eq, Structural, Hash)]
pub struct ThreadId {
    raw: i32,
}

impl View for ThreadId {
    type V = int;

    closed spec fn view(&self) -> int {
        self.raw as int
    }
}

impl ThreadId {
    #[verifier::type_invariant]
    spec fn positive(self) -> bool {
        self.raw > 0
    }

    /// Create a new thread id from a raw Linux tid.
    pub fn new(raw: i32) -> (result: Result<Self, DebugError>)
        ensures
            raw > 0 ==> (result matches Ok(tid) && tid@ == raw),
            raw <= 0 ==> result == Err::<Self, DebugError>(DebugError::InvalidPid(raw)),
    {
        if raw <= 0 {
            return Err(DebugError::InvalidPid(raw));
        }
        Ok(ThreadId { raw })
    }

    /// Return the raw integer tid value.
    pub fn get(self) -> (raw: i32)
        ensures
            raw == self@,
            raw > 0,
    {
        proof {
            use_type_invariant(self);
        }
        self.raw
    }
}

/// A thread id is its number: two with the same number are the same.
pub proof fn thread_ids_are_their_numbers(a: ThreadId, b: ThreadId)
    ensures
        a@ == b@ <==> a == b,
{
}

/// Why the inferior stopped.
#[derive(Debug, Clone, Copy, PartialEq, Eq, Structural)]
pub enum StopReason {
    /// Stopped due to a signal delivery/trap.
    Signal { signal: i32 },
    /// Stopped due to a ptrace event code.
    PtraceEvent { event: i32, signal: i32 },
    /// Stopped at a syscall trap boundary.
    SyscallTrap,
    /// Process exited normally.
    Exited { code: i32 },
    /// Process terminated by signal, optionally with core dump.
    Terminated { signal: i32, core_dumped: bool },
    /// Status that does not currently map to a richer reason.
    Unknown,
}

impl StopReason {
    /// The process is gone: it exited or was terminated by a signal.
    pub open spec fn is_final(self) -> bool {
        self is Exited || self is Terminated
    }

    /// The text of this reason.
    pub open spec fn text(self) -> Seq<char> {
        match self {
            StopReason::Signal { signal } => "signal-stop(sig="@ + decimal(signal as int) + ")"@,
            StopReason::PtraceEvent { event, signal } => "ptrace-event(event="@ + decimal(
                event as int,
            ) + ", sig="@ + decimal(signal as int) + ")"@,
            StopReason::SyscallTrap => "syscall-trap"@,
            StopReason::Exited { code } => "exited(code="@ + decimal(code as int) + ")"@,
            StopReason::Terminated { signal, core_dumped } => "terminated(sig="@ + decimal(
                signal as int,
            ) + ", core_dumped="@ + (if core_dumped {
                "true"@
            } else {
                "false"@
            }) + ")"@,
            StopReason::Unknown => "unknown-stop"@,
        }
    }

    /// Whether the process is gone: it exited or was terminated by a signal.
    pub fn ends_process(&self) -> (result: bool)
        ensures
            result == self.is_final(),
    {
        match self {
            StopReason::Exited { .. } | StopReason::Terminated { .. } => true,
            _ => false,
        }
    }

    /// The text of this reason.
    pub fn to_string(&self) -> (text: String)
        ensures
            text@ == self.text(),
    {
        match self {
            StopReason::Signal { signal } => {
                let mut text = "signal-stop(sig=".to_owned();
                append_decimal(&mut text, *signal as i64);
                text.concat(")")
            },
            StopReason::PtraceEvent { event, signal } => {
                let mut text = "ptrace-event(event=".to_owned();
                append_decimal(&mut text, *event as i64);
                text.append(", sig=");
                append_decimal(&mut text, *signal as i64);
                text.concat(")")
            },
            StopReason::SyscallTrap => "syscall-trap".to_owned(),
            StopReason::Exited { code } => {
                let mut text = "exited(code=".to_owned();
                append_decimal(&mut text, *code as i64);
                text.concat(")")
            },
            StopReason::Terminated { signal, core_dumped } => {
                let mut text = "terminated(sig=".to_owned();
                append_decimal(&mut text, *signal as i64);
                text.append(", core_dumped=");
                text.append(
                    if *core_dumped {
                        "true"
                    } else {
                        "false"
                    },
                );
                text.concat(")")
            },
            StopReason::Unknown => "unknown-stop".to_owned(),
        }
    }
}

/// A single debugger stop event.
#[derive(Debug, Clone, Copy, PartialEq, Eq, Structural)]
pub struct StopEvent {
    /// Thread id reported by the wait.
    pub tid: ThreadId,
    /// Classified reason for this stop.
    pub reason: StopReason,
}

/// Typed register payload returned by read/write operations.
#[derive(Debug, Clone, Copy, PartialEq, Eq)]
pub struct RegisterValue {
    /// Canonical register/alias name.
    pub name: &'static str,
    /// Bit width of the register view (for example 8/16/32/64).
    pub bits: u8,
    /// Value of the register view, already masked to `bits`.
    pub value: u64,
}

impl RegisterValue {
    /// The text of this value: name, zero-padded hex, decimal, width.
    pub open spec fn text(self) -> Seq<char> {
        self.name@ + ": 0x"@ + zero_padded(
            digits(self.value as nat, 16),
            ((self.bits + 3) / 4) as nat,
        ) + " ("@ + digits(self.value as nat, 10) + ") ["@ + digits(self.bits as nat, 10)
            + "-bit]"@
    }

    /// Hex digit width required to print this value without truncation.
    pub fn hex_width(self) -> (width: usize)
        ensures
            width == (self.bits + 3) / 4,
    {
        (self.bits as usize + 3) / 4
    }

    /// The text of this value: name, zero-padded hex, decimal, width.
    pub fn to_string(&self) -> (text: String)
        ensures
            text@ == self.text(),
    {
        let width = self.hex_width();
        let mut text = self.name.to_owned();
        text.append(": 0x");
        append_padded(&mut text, self.value, 16, width);
        text.append(" (");
        append_digits(&mut text, self.value, 10);
        text.append(") [");
        append_digits(&mut text, self.bits as u64, 10);
        text.concat("-bit]")
    }
}

/// Lifecycle action used when ending debugger ownership of the inferior.
#[derive(Debug, Clone, Copy, PartialEq, Eq, Structural)]
pub enum ShutdownPolicy {
    /// Detach tracer and keep target process alive.
    Detach,
    /// Force target process termination.
    Terminate,
}

/// Backend contract implemented by a concrete debugger backend.
///
/// What a backend does is its own affair. Each operation comes with a relation between the backend
/// before the call, the arguments, the backend after the call and the outcome. A backend that
/// states nothing of itself keeps the relations as they are, which admit everything; one that
/// states more narrows them. The callers of this trait state in these relations which operations
/// they performed, in which order and with which arguments, and what came back.
pub trait DebugBackend: Sized {
    /// `launch` on `pre` may leave `post` and return `outcome`.
    open spec fn launches(
        pre: Self,
        program: Seq<char>,
        args: Seq<String>,
        post: Self,
        outcome: Result<StopEvent, DebugError>,
    ) -> bool {
        true
    }

    /// `attach` on `pre` may leave `post` and return `outcome`.
    open spec fn attaches(
        pre: Self,
        pid: ProcessId,
        post: Self,
        outcome: Result<StopEvent, DebugError>,
    ) -> bool {
        true
    }

    /// `resume` on `pre` may leave `post` and return `outcome`.
    open spec fn resumes(
        pre: Self,
        post: Self,
        outcome: Result<(), DebugError>,
    ) -> bool {
        true
    }

    /// `wait_for_stop` on `pre` may leave `post` and return `outcome`.
    open spec fn waits(
        pre: Self,
        post: Self,
        outcome: Result<StopEvent, DebugError>,
    ) -> bool {
        true
    }

    /// `read_register` on `pre` may leave `post` and return `outcome`.
    open spec fn reads(
        pre: Self,
        name: Seq<char>,
        post: Self,
        outcome: Result<RegisterValue, DebugError>,
    ) -> bool {
        true
    }

    /// `write_register` on `pre` may leave `post` and return `outcome`.
    open spec fn writes(
        pre: Self,
        name: Seq<char>,
        value: u64,
        post: Self,
        outcome: Result<RegisterValue, DebugError>,
    ) -> bool {
        true
    }

    /// `read_all_registers` on `pre` may leave `post` and return `outcome`.
    open spec fn reads_all(
        pre: Self,
        post: Self,
        outcome: Result<Vec<RegisterValue>, DebugError>,
    ) -> bool {
        true
    }

    /// `shutdown` on `pre` may leave `post` and return `outcome`.
    open spec fn shuts_down(
        pre: Self,
        policy: ShutdownPolicy,
        post: Self,
        outcome: Result<(), DebugError>,
    ) -> bool {
        true
    }

    /// `active_process` may return `pid`.
    open spec fn reports(&self, pid: Option<ProcessId>) -> bool {
        true
    }

    /// `ptrace_call_count` may return `count`, besides the `0` of a backend that does not count.
    open spec fn counts(&self, count: u64) -> bool {
        true
    }

    /// Launch a new inferior and return its initial stop event.
    fn launch(&mut self, program: &str, args: &[String]) -> (outcome: Result<StopEvent, DebugError>)
        ensures
            Self::launches(*old(self), program@, args@, *final(self), outcome),
    ;

    /// Attach to an existing process and return the first observed stop event.
    fn attach(&mut self, pid: ProcessId) -> (outcome: Result<StopEvent, DebugError>)
        ensures
            Self::attaches(*old(self), pid, *final(self), outcome),
    ;

    /// Resume the currently active inferior.
    fn resume(&mut self) -> (outcome: Result<(), DebugError>)
        ensures
            Self::resumes(*old(self), *final(self), outcome),
    ;

    /// Block until the currently active inferior reports a stop event.
    fn wait_for_stop(&mut self) -> (outcome: Result<StopEvent, DebugError>)
        ensures
            Self::waits(*old(self), *final(self), outcome),
    ;

    /// Read a single register/alias by name.
    fn read_register(&mut self, name: &str) -> (outcome: Result<RegisterValue, DebugError>)
        ensures
            Self::reads(*old(self), name@, *final(self), outcome),
    ;

    /// Write a single register/alias by name and return the normalized value.
    fn write_register(&mut self, name: &str, value: u64) -> (outcome: Result<
        RegisterValue,
        DebugError,
    >)
        ensures
            Self::writes(*old(self), name@, value, *final(self), outcome),
    ;

    /// Read a canonical register snapshot.
    fn read_all_registers(&mut self) -> (outcome: Result<Vec<RegisterValue>, DebugError>)
        ensures
            Self::reads_all(*old(self), *final(self), outcome),
    ;

    /// End debugger ownership according to the provided policy.
    fn shutdown(&mut self, policy: ShutdownPolicy) -> (outcome: Result<(), DebugError>)
        ensures
            Self::shuts_down(*old(self), policy, *final(self), outcome),
    ;

    /// Return the currently active process id, if any.
    fn active_process(&self) -> (pid: Option<ProcessId>)
        ensures
            self.reports(pid),
    ;

    /// Count ptrace roundtrips performed by this backend.
    ///
    /// Backends that do not track this may keep the default `0`.
    fn ptrace_call_count(&self) -> (count: u64)
        ensures
            count == 0 || self.counts(count),
        default_ensures
            count == 0,
    {
        0
    }
}

} // verus!
