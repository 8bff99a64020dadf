//! Decisions of the Linux ptrace backend.
//!
//! [`LinuxBackend`] owns at most one inferior. Each operation is a sequence of system calls, and
//! which call comes next depends on how the last one ended. The operations here say which call to
//! make; whoever makes it hands the outcome back and is told the next one, until the operation is
//! done.

use crate::domain::{
    DebugError, ProcessId, RegisterValue, ShutdownPolicy, StopEvent, StopReason, ThreadId,
};
#[allow(unused_imports)]
use crate::aliases::names_nothing;
#[allow(unused_imports)]
use crate::registers::{read_gives, shows_all, write_gives};
use crate::registers::{read_all_gpr, read_register, write_register, UserRegs};
#[allow(unused_imports)]
use crate::text::{append_digits, decimal, digits};
use vstd::prelude::*;
use vstd::string::*;
#[allow(unused_imports)]
use vstd::utf8::{
    decode_utf8, encode_utf8, encode_utf8_decode_utf8, encode_utf8_valid_utf8, valid_utf8,
};

verus! {

/// `No such process`.
pub const ESRCH: i32 = 3;

/// `No child processes`.
pub const ECHILD: i32 = 10;

/// `Invalid argument`.
pub const EINVAL: i32 = 22;

/// The text of an error number of Linux on x86_64.
pub uninterp spec fn errno_text_of(errno: i32) -> Seq<char>;

/// Calls `to_string` on the `nix::errno::Errno` of an error number, which a fixed table gives.
#[verifier::external_body]
fn errno_text(errno: i32) -> (text: String)
    ensures
        text@ == errno_text_of(errno),
{
    nix::errno::Errno::from_raw(errno).to_string()
}

/// The text of bytes that should be UTF-8, with what is not UTF-8 replaced.
pub uninterp spec fn lossy_text_of(bytes: Seq<u8>) -> Seq<char>;

/// Calls `String::from_utf8_lossy`, which takes bytes that are UTF-8 for what they encode.
#[verifier::external_body]
fn lossy_text(bytes: &[u8]) -> (text: String)
    ensures
        text@ == lossy_text_of(bytes@),
        valid_utf8(bytes@) ==> text@ == decode_utf8(bytes@),
{
    String::from_utf8_lossy(bytes).into_owned()
}

/// `error` says that a system call ended with `errno`.
pub open spec fn is_errno(error: DebugError, errno: i32) -> bool {
    error matches DebugError::Backend(cause) && cause@ == errno_text_of(errno)
}

/// The error of a system call that ended with `errno`.
pub fn errno_error(errno: i32) -> (error: DebugError)
    ensures
        is_errno(error, errno),
{
    DebugError::Backend(errno_text(errno))
}

/// What the child of a launch reports when it cannot ask to be traced.
pub fn traceme_report(errno: i32) -> (report: String)
    ensures
        report@ == "ptrace(TRACEME) failed: "@ + errno_text_of(errno),
{
    let text = errno_text(errno);
    "ptrace(TRACEME) failed: ".to_owned().concat(&text)
}

/// What the child of a launch reports when it cannot execute the program.
pub fn exec_report(errno: i32) -> (report: String)
    ensures
        report@ == "execvp failed: "@ + errno_text_of(errno),
{
    let text = errno_text(errno);
    "execvp failed: ".to_owned().concat(&text)
}

/// How a wait for a traced process ended.
#[derive(Debug, Clone, Copy, PartialEq, Eq, Structural)]
pub enum WaitStatus {
    /// The process exited with a code.
    Exited { pid: i32, code: i32 },
    /// The process was killed by a signal, optionally with core dump.
    Signaled { pid: i32, signal: i32, core_dumped: bool },
    /// The process was stopped by a signal.
    Stopped { pid: i32, signal: i32 },
    /// The process was stopped by a ptrace event.
    PtraceEvent { pid: i32, signal: i32, event: i32 },
    /// The process was stopped by a system call.
    PtraceSyscall { pid: i32 },
    /// The process was stopped and has resumed.
    Continued { pid: i32 },
    /// Nothing has changed.
    StillAlive,
}

impl WaitStatus {
    /// The process that the status is about.
    pub open spec fn pid(self) -> Option<i32> {
        match self {
            WaitStatus::Exited { pid, .. } => Some(pid),
            WaitStatus::Signaled { pid, .. } => Some(pid),
            WaitStatus::Stopped { pid, .. } => Some(pid),
            WaitStatus::PtraceEvent { pid, .. } => Some(pid),
            WaitStatus::PtraceSyscall { pid } => Some(pid),
            WaitStatus::Continued { pid } => Some(pid),
            WaitStatus::StillAlive => None,
        }
    }

    /// Why the process stopped.
    pub open spec fn reason(self) -> StopReason {
        match self {
            WaitStatus::Exited { code, .. } => StopReason::Exited { code },
            WaitStatus::Signaled { signal, core_dumped, .. } => StopReason::Terminated {
                signal,
                core_dumped,
            },
            WaitStatus::Stopped { signal, .. } => StopReason::Signal { signal },
            WaitStatus::PtraceEvent { signal, event, .. } => StopReason::PtraceEvent {
                event,
                signal,
            },
            WaitStatus::PtraceSyscall { .. } => StopReason::SyscallTrap,
            _ => StopReason::Unknown,
        }
    }

    /// There is no stop in the status: the process goes on.
    pub open spec fn is_idle(self) -> bool {
        self is StillAlive || self is Continued
    }

    /// `outcome` is the stop event of this status.
    pub open spec fn decodes(self, outcome: Result<StopEvent, DebugError>) -> bool {
        match self.pid() {
            Some(pid) => if pid > 0 {
                outcome matches Ok(event) && event.tid@ == pid && event.reason == self.reason()
            } else {
                outcome == Err::<StopEvent, DebugError>(DebugError::InvalidPid(pid))
            },
            None => outcome matches Err(DebugError::Backend(cause)) && cause@
                == "waitpid returned StillAlive"@,
        }
    }
}

/// The stop event of a thread id and a reason.
fn stop_event(pid: i32, reason: StopReason) -> (outcome: Result<StopEvent, DebugError>)
    ensures
        pid > 0 ==> (outcome matches Ok(event) && event.tid@ == pid && event.reason == reason),
        pid <= 0 ==> outcome == Err::<StopEvent, DebugError>(DebugError::InvalidPid(pid)),
{
    match ThreadId::new(pid) {
        Ok(tid) => Ok(StopEvent { tid, reason }),
        Err(error) => Err(error),
    }
}

/// The bytes of a program and its arguments, in this order.
pub open spec fn argv_of(program: Seq<char>, args: Seq<String>) -> Seq<Seq<u8>> {
    seq![encode_utf8(program)] + args.map_values(|arg: String| encode_utf8(arg@))
}

/// There is no zero in `bytes`.
pub open spec fn is_nul_free(bytes: Seq<u8>) -> bool {
    forall|i: int| 0 <= i < bytes.len() ==> #[trigger] bytes[i] != 0
}

/// The first zero in `bytes` is at `position`.
pub open spec fn first_nul_at(bytes: Seq<u8>, position: int) -> bool {
    &&& 0 <= position < bytes.len()
    &&& bytes[position] == 0
    &&& forall|i: int| 0 <= i < position ==> #[trigger] bytes[i] != 0
}

/// `outcome` is the argument vector of a program and its arguments: their bytes, or, where there is
/// a zero in them, an error with the place of the first.
pub open spec fn builds_argv(
    program: Seq<char>,
    args: Seq<String>,
    outcome: Result<Vec<Vec<u8>>, DebugError>,
) -> bool {
    let texts = argv_of(program, args);
    match outcome {
        Ok(argv) => {
            &&& argv@.len() == texts.len()
            &&& forall|i: int|
                0 <= i < texts.len() ==> (#[trigger] argv@[i])@ == texts[i] && is_nul_free(texts[i])
        },
        Err(error) => exists|i: int, position: int|
            {
                &&& 0 <= i < texts.len()
                &&& forall|j: int| 0 <= j < i ==> is_nul_free(#[trigger] texts[j])
                &&& #[trigger] first_nul_at(texts[i], position)
                &&& error matches DebugError::Backend(cause) && cause@
                    == "nul byte found in provided data at position: "@ + decimal(position)
            },
    }
}

/// The bytes of `text`, unless there is a zero in them.
fn nul_free_bytes(text: &str) -> (outcome: Result<Vec<u8>, DebugError>)
    ensures
        match outcome {
            Ok(bytes) => bytes@ == encode_utf8(text@) && is_nul_free(bytes@),
            Err(error) => exists|position: int| #[trigger]
                first_nul_at(encode_utf8(text@), position) && (error matches DebugError::Backend(
                    cause,
                ) && cause@ == "nul byte found in provided data at position: "@ + decimal(
                    position,
                )),
        },
{
    let bytes = text.as_bytes_vec();
    let mut i: usize = 0;
    while i < bytes.len()
        invariant
            i <= bytes@.len(),
            bytes@ == encode_utf8(text@),
            forall|j: int| 0 <= j < i ==> #[trigger] bytes@[j] != 0,
        decreases bytes@.len() - i,
    {
        if bytes[i] == 0 {
            let mut cause = "nul byte found in provided data at position: ".to_owned();
            append_digits(&mut cause, i as u64, 10);
            assert(first_nul_at(encode_utf8(text@), i as int));
            return Err(DebugError::Backend(cause));
        }
        i += 1;
    }
    Ok(bytes)
}

/// Records whether the debugger launched the inferior or attached to an existing one.
///
/// This ownership drives the cleanup policy.
#[derive(Debug, Clone, Copy, PartialEq, Eq, Structural)]
pub enum InferiorOwnership {
    /// Inferior process was created by `launch`.
    Launched,
    /// Inferior process existed already and was attached to.
    Attached,
}

/// Linux `ptrace` backend.
///
/// Invariant: a backend instance owns at most one active inferior at a time.
#[derive(Debug)]
pub struct LinuxBackend {
    /// Active traced process.
    inferior: Option<i32>,
    /// How we acquired the active inferior.
    ownership: Option<InferiorOwnership>,
    /// Number of ptrace calls issued by this backend.
    ptrace_calls: u64,
}

/// What a [`LinuxBackend`] keeps track of.
pub struct BackendState {
    /// Active traced process.
    pub inferior: Option<i32>,
    /// How the active inferior was acquired.
    pub ownership: Option<InferiorOwnership>,
    /// Number of ptrace calls so far, as far as they can be counted.
    pub ptrace_calls: u64,
}

impl BackendState {
    /// An inferior is owned exactly where it is known how it was acquired.
    pub open spec fn is_consistent(self) -> bool {
        self.inferior is Some <==> self.ownership is Some
    }

    /// What was attached to is let go, what was launched is killed.
    pub open spec fn fallback_policy(self) -> Option<ShutdownPolicy> {
        match self.ownership {
            Some(InferiorOwnership::Attached) => Some(ShutdownPolicy::Detach),
            Some(InferiorOwnership::Launched) => Some(ShutdownPolicy::Terminate),
            None => None,
        }
    }

    /// With an inferior.
    pub open spec fn owning(self, pid: i32, ownership: InferiorOwnership) -> Self {
        BackendState { inferior: Some(pid), ownership: Some(ownership), ..self }
    }

    /// With no inferior.
    pub open spec fn released(self) -> Self {
        BackendState { inferior: None, ownership: None, ..self }
    }

    /// With one more ptrace call.
    pub open spec fn counted(self) -> Self {
        BackendState {
            ptrace_calls: if self.ptrace_calls < u64::MAX {
                (self.ptrace_calls + 1) as u64
            } else {
                u64::MAX
            },
            ..self
        }
    }
}

impl View for LinuxBackend {
    type V = BackendState;

    closed spec fn view(&self) -> BackendState {
        BackendState {
            inferior: self.inferior,
            ownership: self.ownership,
            ptrace_calls: self.ptrace_calls,
        }
    }
}

/// A request to the system that is answered with nothing but success or an error number.
#[derive(Debug, Clone, Copy, PartialEq, Eq, Structural)]
pub enum Request {
    /// `PTRACE_ATTACH`.
    Attach { pid: i32 },
    /// `PTRACE_SETOPTIONS` with `PTRACE_O_TRACESYSGOOD`.
    SetOptions { pid: i32 },
    /// `PTRACE_CONT` without a signal.
    Cont { pid: i32 },
    /// `PTRACE_SETREGS`.
    SetRegs { pid: i32, regs: UserRegs },
    /// `PTRACE_DETACH` without a signal.
    Detach { pid: i32 },
    /// `kill` with `SIGKILL`.
    Kill { pid: i32 },
}

/// What a request was made for.
#[derive(Debug, Clone, Copy)]
pub enum AfterRequest {
    /// To attach to the process.
    Attached { pid: i32 },
    /// To set the options of an inferior whose first stop is `event`.
    Configured { event: StopEvent },
    /// To resume the inferior.
    Resumed,
    /// To write the registers, one of which then reads as `updated`.
    Written { updated: RegisterValue },
    /// To detach from the inferior.
    Detached,
    /// To kill the inferior.
    Killed { pid: i32 },
}

/// What a process is waited for.
#[derive(Debug, Clone, Copy, PartialEq, Eq, Structural)]
pub enum AfterWait {
    /// Its first stop after a launch or an attach.
    FirstStop,
    /// The next stop.
    NextStop,
    /// Its end.
    Reaped,
}

/// What the registers are read for.
#[derive(Debug)]
pub enum AfterRegs {
    /// To read one of them.
    Read { name: String },
    /// To write one of them.
    Write { pid: i32, name: String, value: u64 },
    /// To read the canonical ones.
    ReadAll,
}

/// How an operation ended.
#[derive(Debug)]
pub enum Reply {
    /// The outcome of `launch`, `attach` or `wait_for_stop`.
    Stop(Result<StopEvent, DebugError>),
    /// The outcome of `resume` or `shutdown`.
    Unit(Result<(), DebugError>),
    /// The outcome of `read_register` or `write_register`.
    Register(Result<RegisterValue, DebugError>),
    /// The outcome of `read_all_registers`.
    Registers(Result<Vec<RegisterValue>, DebugError>),
}

/// What comes next in an operation.
#[derive(Debug)]
pub enum Step {
    /// Start a process that asks to be traced and executes `argv`.
    Spawn { argv: Vec<Vec<u8>> },
    /// Make a request.
    Ask { request: Request, then: AfterRequest },
    /// Wait for the process.
    Wait { pid: i32, until: AfterWait },
    /// Read the registers of the process.
    GetRegs { pid: i32, purpose: AfterRegs },
    /// Nothing: the operation is done.
    Done(Reply),
}

/// A process that was started.
#[derive(Debug)]
pub struct Spawned {
    /// The process.
    pub pid: i32,
    /// What it reported instead of executing the program. Empty where it did execute it.
    pub report: Vec<u8>,
}

impl Step {
    /// The operation ended without a stop, because a system call ended with `errno`.
    pub open spec fn stop_failed(self, errno: i32) -> bool {
        self matches Step::Done(Reply::Stop(Err(error))) && is_errno(error, errno)
    }

    /// The operation failed, because a system call ended with `errno`.
    pub open spec fn unit_failed(self, errno: i32) -> bool {
        self matches Step::Done(Reply::Unit(Err(error))) && is_errno(error, errno)
    }

    /// The operation ended without a register, because a system call ended with `errno`.
    pub open spec fn register_failed(self, errno: i32) -> bool {
        self matches Step::Done(Reply::Register(Err(error))) && is_errno(error, errno)
    }

    /// The operation ended without registers, because a system call ended with `errno`.
    pub open spec fn registers_failed(self, errno: i32) -> bool {
        self matches Step::Done(Reply::Registers(Err(error))) && is_errno(error, errno)
    }

    /// The operation ended with this error.
    pub open spec fn refused(self, error: DebugError) -> bool {
        match self {
            Step::Done(Reply::Stop(outcome)) => outcome == Err::<StopEvent, DebugError>(error),
            Step::Done(Reply::Unit(outcome)) => outcome == Err::<(), DebugError>(error),
            Step::Done(Reply::Register(outcome)) => outcome == Err::<RegisterValue, DebugError>(
                error,
            ),
            Step::Done(Reply::Registers(outcome)) => outcome == Err::<
                Vec<RegisterValue>,
                DebugError,
            >(error),
            _ => false,
        }
    }

    /// The step belongs to an operation whose outcome is a stop.
    pub open spec fn leads_to_stop(self) -> bool {
        match self {
            Step::Spawn { .. } => true,
            Step::Ask { then, .. } => then is Attached || then is Configured,
            Step::Wait { until, .. } => !(until is Reaped),
            Step::GetRegs { .. } => false,
            Step::Done(reply) => reply is Stop,
        }
    }

    /// The step belongs to an operation with nothing but success for an outcome.
    pub open spec fn leads_to_unit(self) -> bool {
        match self {
            Step::Spawn { .. } => false,
            Step::Ask { then, .. } => then is Resumed || then is Detached || then is Killed,
            Step::Wait { until, .. } => until is Reaped,
            Step::GetRegs { .. } => false,
            Step::Done(reply) => reply is Unit,
        }
    }

    /// The step belongs to an operation whose outcome is a register.
    pub open spec fn leads_to_register(self) -> bool {
        match self {
            Step::Spawn { .. } => false,
            Step::Ask { then, .. } => then is Written,
            Step::Wait { .. } => false,
            Step::GetRegs { purpose, .. } => !(purpose is ReadAll),
            Step::Done(reply) => reply is Register,
        }
    }

    /// The step belongs to an operation whose outcome is the canonical registers.
    pub open spec fn leads_to_registers(self) -> bool {
        match self {
            Step::GetRegs { purpose, .. } => purpose is ReadAll,
            Step::Done(reply) => reply is Registers,
            _ => false,
        }
    }

    /// The operation ended with this stop.
    pub open spec fn stopped(self, event: StopEvent) -> bool {
        self == Step::Done(Reply::Stop(Ok(event)))
    }

    /// The operation ended well.
    pub open spec fn succeeded(self) -> bool {
        self matches Step::Done(Reply::Unit(Ok(_)))
    }
}

impl BackendState {
    /// How a launch begins.
    pub open spec fn launches(self, program: Seq<char>, args: Seq<String>, step: Step) -> bool {
        if self.inferior is Some {
            step == Step::Done(Reply::Stop(Err(DebugError::InferiorAlreadyActive)))
        } else {
            match step {
                Step::Spawn { argv } => builds_argv(program, args, Ok(argv)),
                Step::Done(Reply::Stop(Err(error))) => builds_argv(program, args, Err(error)),
                _ => false,
            }
        }
    }

    /// How a launch goes on when the process was started, or was not.
    pub open spec fn after_spawn(
        self,
        outcome: Result<Spawned, i32>,
        post: Self,
        step: Step,
    ) -> bool {
        match outcome {
            Err(errno) => post == self && step.stop_failed(errno),
            Ok(child) => if child.report@.len() > 0 {
                &&& post == self
                &&& step matches Step::Done(Reply::Stop(Err(DebugError::Backend(cause)))) && {
                    &&& cause@ == "child failed before exec: "@ + lossy_text_of(child.report@)
                    &&& valid_utf8(child.report@) ==> cause@ == "child failed before exec: "@
                        + decode_utf8(child.report@)
                }
            } else {
                &&& post == self.owning(child.pid, InferiorOwnership::Launched)
                &&& step == (Step::Wait { pid: child.pid, until: AfterWait::FirstStop })
            },
        }
    }

    /// How an attach begins.
    pub open spec fn attaches(self, pid: int, step: Step) -> bool {
        if self.inferior is Some {
            step == Step::Done(Reply::Stop(Err(DebugError::InferiorAlreadyActive)))
        } else {
            step == (Step::Ask {
                request: Request::Attach { pid: pid as i32 },
                then: AfterRequest::Attached { pid: pid as i32 },
            })
        }
    }

    /// How a resume begins.
    pub open spec fn resumes(self, step: Step) -> bool {
        match self.inferior {
            None => step == Step::Done(Reply::Unit(Err(DebugError::MissingInferior))),
            Some(pid) => step == (Step::Ask {
                request: Request::Cont { pid },
                then: AfterRequest::Resumed,
            }),
        }
    }

    /// How a wait for a stop begins.
    pub open spec fn waits(self, step: Step) -> bool {
        match self.inferior {
            None => step == Step::Done(Reply::Stop(Err(DebugError::MissingInferior))),
            Some(pid) => step == (Step::Wait { pid, until: AfterWait::NextStop }),
        }
    }

    /// How the read of a register begins.
    pub open spec fn reads(self, name: Seq<char>, step: Step) -> bool {
        match self.inferior {
            None => step == Step::Done(Reply::Register(Err(DebugError::MissingInferior))),
            Some(inferior) => step matches Step::GetRegs { pid, purpose: AfterRegs::Read { name: read } }
                && pid == inferior && read@ == name,
        }
    }

    /// How the write of a register begins.
    pub open spec fn writes(self, name: Seq<char>, value: u64, step: Step) -> bool {
        match self.inferior {
            None => step == Step::Done(Reply::Register(Err(DebugError::MissingInferior))),
            Some(inferior) => step matches Step::GetRegs {
                pid,
                purpose: AfterRegs::Write { pid: target, name: write, value: new },
            } && pid == inferior && target == inferior && write@ == name && new == value,
        }
    }

    /// How the read of the canonical registers begins.
    pub open spec fn reads_all(self, step: Step) -> bool {
        match self.inferior {
            None => step == Step::Done(Reply::Registers(Err(DebugError::MissingInferior))),
            Some(pid) => step == (Step::GetRegs { pid, purpose: AfterRegs::ReadAll }),
        }
    }

    /// How a shutdown begins.
    pub open spec fn shuts_down(self, policy: ShutdownPolicy, step: Step) -> bool {
        match self.inferior {
            None => step == Step::Done(Reply::Unit(Err(DebugError::MissingInferior))),
            Some(pid) => match policy {
                ShutdownPolicy::Detach => step == (Step::Ask {
                    request: Request::Detach { pid },
                    then: AfterRequest::Detached,
                }),
                ShutdownPolicy::Terminate => step == (Step::Ask {
                    request: Request::Kill { pid },
                    then: AfterRequest::Killed { pid },
                }),
            },
        }
    }

    /// How an operation goes on when a request was answered.
    ///
    /// A request that did its work is counted. To detach from a process that is gone, or to kill
    /// it, is no failure.
    pub open spec fn after_request(
        self,
        then: AfterRequest,
        outcome: Result<(), i32>,
        post: Self,
        step: Step,
    ) -> bool {
        match then {
            AfterRequest::Attached { pid } => match outcome {
                Err(errno) => post == self && step.stop_failed(errno),
                Ok(_) => {
                    &&& post == self.counted().owning(pid, InferiorOwnership::Attached)
                    &&& step == (Step::Wait { pid, until: AfterWait::FirstStop })
                },
            },
            AfterRequest::Configured { event } => match outcome {
                Err(errno) => post == self && step.stop_failed(errno),
                Ok(_) => post == self.counted() && step.stopped(event),
            },
            AfterRequest::Resumed => match outcome {
                Err(errno) => post == self && step.unit_failed(errno),
                Ok(_) => post == self.counted() && step.succeeded(),
            },
            AfterRequest::Written { updated } => match outcome {
                Err(errno) => post == self && step.register_failed(errno),
                Ok(_) => post == self.counted() && step == Step::Done(Reply::Register(Ok(updated))),
            },
            AfterRequest::Detached => match outcome {
                Err(errno) if errno != ESRCH && errno != EINVAL => post == self && step.unit_failed(
                    errno,
                ),
                _ => post == self.counted().released() && step.succeeded(),
            },
            AfterRequest::Killed { pid } => {
                &&& post == self
                &&& match outcome {
                    Err(errno) if errno != ESRCH => step.unit_failed(errno),
                    _ => step == (Step::Wait { pid, until: AfterWait::Reaped }),
                }
            },
        }
    }

    /// How an operation goes on when the process `pid` was waited for.
    pub open spec fn after_wait(
        self,
        pid: i32,
        until: AfterWait,
        outcome: Result<WaitStatus, i32>,
        post: Self,
        step: Step,
    ) -> bool {
        match (until, outcome) {
            (AfterWait::Reaped, Err(errno)) if errno != ECHILD => post == self && step.unit_failed(
                errno,
            ),
            (AfterWait::Reaped, _) => post == self.released() && step.succeeded(),
            (_, Err(errno)) => post == self && step.stop_failed(errno),
            (AfterWait::NextStop, Ok(status)) if status.is_idle() => post == self && step
                == (Step::Wait { pid, until }),
            (_, Ok(status)) => match step {
                Step::Done(Reply::Stop(Err(error))) => post == self && status.decodes(Err(error)),
                Step::Done(Reply::Stop(Ok(event))) => {
                    &&& status.decodes(Ok(event))
                    &&& event.reason.is_final() || until is NextStop
                    &&& post == if event.reason.is_final() {
                        self.released()
                    } else {
                        self
                    }
                },
                Step::Ask { request, then: AfterRequest::Configured { event } } => {
                    &&& status.decodes(Ok(event))
                    &&& !event.reason.is_final() && until is FirstStop
                    &&& request == (Request::SetOptions { pid })
                    &&& post == self
                },
                _ => false,
            },
        }
    }

    /// How an operation goes on when the registers were read.
    pub open spec fn after_regs(
        self,
        purpose: AfterRegs,
        outcome: Result<UserRegs, i32>,
        post: Self,
        step: Step,
    ) -> bool {
        match outcome {
            Err(errno) => {
                &&& post == self
                &&& match purpose {
                    AfterRegs::ReadAll => step.registers_failed(errno),
                    _ => step.register_failed(errno),
                }
            },
            Ok(regs) => {
                &&& post == self.counted()
                &&& match purpose {
                    AfterRegs::Read { name } => step matches Step::Done(Reply::Register(result))
                        && read_gives(regs, name@, result),
                    AfterRegs::Write { pid, name, value } => match step {
                        Step::Ask { request, then: AfterRequest::Written { updated } } => {
                            &&& request matches Request::SetRegs { pid: target, regs: after }
                                && target == pid && write_gives(
                                regs,
                                name@,
                                value,
                                after,
                                Ok(updated),
                            )
                        },
                        Step::Done(Reply::Register(Err(error))) => write_gives(
                            regs,
                            name@,
                            value,
                            regs,
                            Err(error),
                        ),
                        _ => false,
                    },
                    AfterRegs::ReadAll => step matches Step::Done(Reply::Registers(Ok(values)))
                        && shows_all(regs, values@),
                }
            },
        }
    }
}

/// What may have been answered to a step.
pub enum Answer {
    /// The process that was started, or the error number.
    Spawn(Result<Spawned, i32>),
    /// Nothing, or the error number.
    Ask(Result<(), i32>),
    /// How the wait ended, or the error number.
    Wait(Result<WaitStatus, i32>),
    /// The registers, or the error number.
    GetRegs(Result<UserRegs, i32>),
}

impl BackendState {
    /// `answer` to `step` leads from this state to `post` and to the step `next`.
    pub open spec fn goes_on(self, step: Step, answer: Answer, post: Self, next: Step) -> bool {
        match (step, answer) {
            (Step::Spawn { .. }, Answer::Spawn(outcome)) => self.after_spawn(outcome, post, next),
            (Step::Ask { then, .. }, Answer::Ask(outcome)) => self.after_request(
                then,
                outcome,
                post,
                next,
            ),
            (Step::Wait { pid, until }, Answer::Wait(outcome)) => self.after_wait(
                pid,
                until,
                outcome,
                post,
                next,
            ),
            (Step::GetRegs { purpose, .. }, Answer::GetRegs(outcome)) => self.after_regs(
                purpose,
                outcome,
                post,
                next,
            ),
            _ => false,
        }
    }
}

impl Default for LinuxBackend {
    fn default() -> (backend: Self)
        ensures
            backend@ == (BackendState { inferior: None, ownership: None, ptrace_calls: 0 }),
    {
        LinuxBackend { inferior: None, ownership: None, ptrace_calls: 0 }
    }
}

impl LinuxBackend {
    /// Create a backend with no active inferior.
    pub fn new() -> (backend: Self)
        ensures
            backend@ == (BackendState { inferior: None, ownership: None, ptrace_calls: 0 }),
            backend@.is_consistent(),
    {
        Self::default()
    }

    /// Set active inferior and ownership mode.
    fn set_inferior(&mut self, pid: i32, ownership: InferiorOwnership)
        ensures
            final(self)@ == old(self)@.owning(pid, ownership),
    {
        self.inferior = Some(pid);
        self.ownership = Some(ownership);
    }

    /// Clear active inferior ownership state.
    fn clear_inferior(&mut self)
        ensures
            final(self)@ == old(self)@.released(),
    {
        self.inferior = None;
        self.ownership = None;
    }

    /// Count one more ptrace call.
    fn count_call(&mut self)
        ensures
            final(self)@ == old(self)@.counted(),
    {
        self.ptrace_calls = self.ptrace_calls.saturating_add(1);
    }

    /// Resolve the currently active pid or return `MissingInferior`.
    fn current_pid(&self) -> (result: Result<i32, DebugError>)
        ensures
            match self@.inferior {
                Some(pid) => result == Ok::<i32, DebugError>(pid),
                None => result == Err::<i32, DebugError>(DebugError::MissingInferior),
            },
    {
        match self.inferior {
            Some(pid) => Ok(pid),
            None => Err(DebugError::MissingInferior),
        }
    }

    /// Build the argument vector of a program.
    pub fn build_argv(program: &str, args: &[String]) -> (outcome: Result<Vec<Vec<u8>>, DebugError>)
        ensures
            builds_argv(program@, args@, outcome),
    {
        let ghost texts = argv_of(program@, args@);
        let mut argv: Vec<Vec<u8>> = Vec::new();
        match nul_free_bytes(program) {
            Ok(bytes) => argv.push(bytes),
            Err(error) => {
                assert(texts[0] == encode_utf8(program@));
                return Err(error);
            },
        }
        let mut i: usize = 0;
        while i < args.len()
            invariant
                i <= args@.len(),
                texts == argv_of(program@, args@),
                argv@.len() == i + 1,
                forall|j: int|
                    0 <= j <= i ==> (#[trigger] argv@[j])@ == texts[j] && is_nul_free(texts[j]),
            decreases args@.len() - i,
        {
            assert(texts[i + 1] == encode_utf8(args@[i as int]@));
            match nul_free_bytes(args[i].as_str()) {
                Ok(bytes) => argv.push(bytes),
                Err(error) => {
                    assert forall|j: int| 0 <= j < i + 1 implies is_nul_free(#[trigger] texts[j]) by {
                        assert(argv@[j]@ == texts[j]);
                    }
                    return Err(error);
                },
            }
            i += 1;
        }
        Ok(argv)
    }

    /// Convert a wait status into a [`StopEvent`].
    pub fn next_stop_event(status: WaitStatus) -> (outcome: Result<StopEvent, DebugError>)
        ensures
            status.decodes(outcome),
    {
        match status {
            WaitStatus::Stopped { pid, signal } => stop_event(pid, StopReason::Signal { signal }),
            WaitStatus::PtraceEvent { pid, signal, event } => stop_event(
                pid,
                StopReason::PtraceEvent { event, signal },
            ),
            WaitStatus::PtraceSyscall { pid } => stop_event(pid, StopReason::SyscallTrap),
            WaitStatus::Exited { pid, code } => stop_event(pid, StopReason::Exited { code }),
            WaitStatus::Signaled { pid, signal, core_dumped } => stop_event(
                pid,
                StopReason::Terminated { signal, core_dumped },
            ),
            WaitStatus::Continued { pid } => stop_event(pid, StopReason::Unknown),
            WaitStatus::StillAlive => Err(
                DebugError::Backend("waitpid returned StillAlive".to_owned()),
            ),
        }
    }

    /// Begin to launch a new inferior.
    pub fn launch(&self, program: &str, args: &[String]) -> (step: Step)
        ensures
            self@.launches(program@, args@, step),
    {
        if self.inferior.is_some() {
            return Step::Done(Reply::Stop(Err(DebugError::InferiorAlreadyActive)));
        }
        match Self::build_argv(program, args) {
            Ok(argv) => Step::Spawn { argv },
            Err(error) => Step::Done(Reply::Stop(Err(error))),
        }
    }

    /// Go on with a launch.
    pub fn after_spawn(&mut self, outcome: Result<Spawned, i32>) -> (step: Step)
        ensures
            old(self)@.after_spawn(outcome, final(self)@, step),
    {
        match outcome {
            Err(errno) => Step::Done(Reply::Stop(Err(errno_error(errno)))),
            Ok(child) => {
                if child.report.len() > 0 {
                    let report = lossy_text(child.report.as_slice());
                    let cause = "child failed before exec: ".to_owned().concat(&report);
                    return Step::Done(Reply::Stop(Err(DebugError::Backend(cause))));
                }
                self.set_inferior(child.pid, InferiorOwnership::Launched);
                Step::Wait { pid: child.pid, until: AfterWait::FirstStop }
            },
        }
    }

    /// Begin to attach to an existing process.
    pub fn attach(&self, pid: ProcessId) -> (step: Step)
        ensures
            self@.attaches(pid@, step),
    {
        if self.inferior.is_some() {
            return Step::Done(Reply::Stop(Err(DebugError::InferiorAlreadyActive)));
        }
        let target: i32 = pid.get();
        Step::Ask {
            request: Request::Attach { pid: target },
            then: AfterRequest::Attached { pid: target },
        }
    }

    /// Begin to continue the currently active inferior.
    pub fn resume(&self) -> (step: Step)
        ensures
            self@.resumes(step),
    {
        match self.current_pid() {
            Ok(pid) => Step::Ask { request: Request::Cont { pid }, then: AfterRequest::Resumed },
            Err(error) => Step::Done(Reply::Unit(Err(error))),
        }
    }

    /// Begin to wait until the inferior reports a meaningful stop event.
    pub fn wait_for_stop(&self) -> (step: Step)
        ensures
            self@.waits(step),
    {
        match self.current_pid() {
            Ok(pid) => Step::Wait { pid, until: AfterWait::NextStop },
            Err(error) => Step::Done(Reply::Stop(Err(error))),
        }
    }

    /// Begin to read one register alias.
    pub fn read_register(&self, name: &str) -> (step: Step)
        ensures
            self@.reads(name@, step),
    {
        match self.current_pid() {
            Ok(pid) => Step::GetRegs { pid, purpose: AfterRegs::Read { name: name.to_owned() } },
            Err(error) => Step::Done(Reply::Register(Err(error))),
        }
    }

    /// Begin to write one register alias.
    pub fn write_register(&self, name: &str, value: u64) -> (step: Step)
        ensures
            self@.writes(name@, value, step),
    {
        match self.current_pid() {
            Ok(pid) => Step::GetRegs {
                pid,
                purpose: AfterRegs::Write { pid, name: name.to_owned(), value },
            },
            Err(error) => Step::Done(Reply::Register(Err(error))),
        }
    }

    /// Begin to read the canonical register set.
    pub fn read_all_registers(&self) -> (step: Step)
        ensures
            self@.reads_all(step),
    {
        match self.current_pid() {
            Ok(pid) => Step::GetRegs { pid, purpose: AfterRegs::ReadAll },
            Err(error) => Step::Done(Reply::Registers(Err(error))),
        }
    }

    /// Begin to end debugger ownership according to `Detach` or `Terminate` policy.
    pub fn shutdown(&self, policy: ShutdownPolicy) -> (step: Step)
        ensures
            self@.shuts_down(policy, step),
    {
        match self.current_pid() {
            Ok(pid) => match policy {
                ShutdownPolicy::Detach => Step::Ask {
                    request: Request::Detach { pid },
                    then: AfterRequest::Detached,
                },
                ShutdownPolicy::Terminate => Step::Ask {
                    request: Request::Kill { pid },
                    then: AfterRequest::Killed { pid },
                },
            },
            Err(error) => Step::Done(Reply::Unit(Err(error))),
        }
    }

    /// Go on when a request was answered.
    pub fn after_request(&mut self, then: AfterRequest, outcome: Result<(), i32>) -> (step: Step)
        ensures
            old(self)@.after_request(then, outcome, final(self)@, step),
    {
        match then {
            AfterRequest::Attached { pid } => match outcome {
                Err(errno) => Step::Done(Reply::Stop(Err(errno_error(errno)))),
                Ok(_) => {
                    self.count_call();
                    self.set_inferior(pid, InferiorOwnership::Attached);
                    Step::Wait { pid, until: AfterWait::FirstStop }
                },
            },
            AfterRequest::Configured { event } => match outcome {
                Err(errno) => Step::Done(Reply::Stop(Err(errno_error(errno)))),
                Ok(_) => {
                    self.count_call();
                    Step::Done(Reply::Stop(Ok(event)))
                },
            },
            AfterRequest::Resumed => match outcome {
                Err(errno) => Step::Done(Reply::Unit(Err(errno_error(errno)))),
                Ok(_) => {
                    self.count_call();
                    Step::Done(Reply::Unit(Ok(())))
                },
            },
            AfterRequest::Written { updated } => match outcome {
                Err(errno) => Step::Done(Reply::Register(Err(errno_error(errno)))),
                Ok(_) => {
                    self.count_call();
                    Step::Done(Reply::Register(Ok(updated)))
                },
            },
            AfterRequest::Detached => {
                if let Err(errno) = outcome {
                    if errno != ESRCH && errno != EINVAL {
                        return Step::Done(Reply::Unit(Err(errno_error(errno))));
                    }
                }
                self.count_call();
                self.clear_inferior();
                Step::Done(Reply::Unit(Ok(())))
            },
            AfterRequest::Killed { pid } => {
                if let Err(errno) = outcome {
                    if errno != ESRCH {
                        return Step::Done(Reply::Unit(Err(errno_error(errno))));
                    }
                }
                Step::Wait { pid, until: AfterWait::Reaped }
            },
        }
    }

    /// Go on when the process `pid` was waited for.
    pub fn after_wait(
        &mut self,
        pid: i32,
        until: AfterWait,
        outcome: Result<WaitStatus, i32>,
    ) -> (step: Step)
        ensures
            old(self)@.after_wait(pid, until, outcome, final(self)@, step),
    {
        if let AfterWait::Reaped = until {
            if let Err(errno) = outcome {
                if errno != ECHILD {
                    return Step::Done(Reply::Unit(Err(errno_error(errno))));
                }
            }
            self.clear_inferior();
            return Step::Done(Reply::Unit(Ok(())));
        }
        let status = match outcome {
            Err(errno) => return Step::Done(Reply::Stop(Err(errno_error(errno)))),
            Ok(status) => status,
        };
        if let AfterWait::NextStop = until {
            match status {
                WaitStatus::StillAlive | WaitStatus::Continued { .. } => {
                    return Step::Wait { pid, until };
                },
                _ => {},
            }
        }
        let event = match Self::next_stop_event(status) {
            Ok(event) => event,
            Err(error) => return Step::Done(Reply::Stop(Err(error))),
        };
        if event.reason.ends_process() {
            self.clear_inferior();
            return Step::Done(Reply::Stop(Ok(event)));
        }
        match until {
            AfterWait::FirstStop => Step::Ask {
                request: Request::SetOptions { pid },
                then: AfterRequest::Configured { event },
            },
            _ => Step::Done(Reply::Stop(Ok(event))),
        }
    }

    /// Go on when the registers were read.
    pub fn after_regs(&mut self, purpose: AfterRegs, outcome: Result<UserRegs, i32>) -> (step: Step)
        ensures
            old(self)@.after_regs(purpose, outcome, final(self)@, step),
    {
        let mut regs = match outcome {
            Ok(regs) => regs,
            Err(errno) => {
                let error = errno_error(errno);
                return match purpose {
                    AfterRegs::ReadAll => Step::Done(Reply::Registers(Err(error))),
                    _ => Step::Done(Reply::Register(Err(error))),
                };
            },
        };
        self.count_call();
        match purpose {
            AfterRegs::Read { name } => Step::Done(
                Reply::Register(read_register(&regs, name.as_str())),
            ),
            AfterRegs::Write { pid, name, value } => {
                match write_register(&mut regs, name.as_str(), value) {
                    Ok(updated) => Step::Ask {
                        request: Request::SetRegs { pid, regs },
                        then: AfterRequest::Written { updated },
                    },
                    Err(error) => Step::Done(Reply::Register(Err(error))),
                }
            },
            AfterRegs::ReadAll => Step::Done(Reply::Registers(Ok(read_all_gpr(&regs)))),
        }
    }

    /// Return active inferior pid if one is currently tracked.
    pub fn active_process(&self) -> (pid: Option<ProcessId>)
        ensures
            match self@.inferior {
                Some(raw) if raw > 0 => pid matches Some(active) && active@ == raw,
                _ => pid is None,
            },
    {
        match self.inferior {
            Some(raw) => match ProcessId::new(raw) {
                Ok(pid) => Some(pid),
                Err(_) => None,
            },
            None => None,
        }
    }

    /// Return accumulated ptrace call count.
    pub fn ptrace_call_count(&self) -> (count: u64)
        ensures
            count == self@.ptrace_calls,
    {
        self.ptrace_calls
    }

    /// How to let go of an inferior that is still owned when the backend goes away.
    pub fn fallback_policy(&self) -> (policy: Option<ShutdownPolicy>)
        ensures
            policy == self@.fallback_policy(),
    {
        match self.ownership {
            Some(InferiorOwnership::Attached) => Some(ShutdownPolicy::Detach),
            Some(InferiorOwnership::Launched) => Some(ShutdownPolicy::Terminate),
            None => None,
        }
    }
}

/// Whatever is answered, an inferior is owned exactly where it is known how it was acquired, and
/// the count of ptrace calls goes up by one at most and never down.
pub proof fn every_step_keeps_the_state_consistent(
    pre: BackendState,
    step: Step,
    answer: Answer,
    post: BackendState,
    next: Step,
)
    requires
        pre.is_consistent(),
        pre.goes_on(step, answer, post, next),
    ensures
        post.is_consistent(),
        pre.ptrace_calls <= post.ptrace_calls <= pre.ptrace_calls + 1,
{
}

/// Whatever is answered, an operation of one kind goes on as one and ends with an outcome of that
/// kind.
pub proof fn every_step_keeps_to_its_operation(
    pre: BackendState,
    step: Step,
    answer: Answer,
    post: BackendState,
    next: Step,
)
    requires
        pre.goes_on(step, answer, post, next),
    ensures
        step.leads_to_stop() == next.leads_to_stop(),
        step.leads_to_unit() == next.leads_to_unit(),
        step.leads_to_register() == next.leads_to_register(),
        step.leads_to_registers() == next.leads_to_registers(),
{
}

/// A backend that owns an inferior refuses to launch or attach to another, without a system call.
pub proof fn a_second_inferior_is_refused(
    state: BackendState,
    program: Seq<char>,
    args: Seq<String>,
    pid: ProcessId,
    step: Step,
)
    requires
        state.inferior is Some,
        state.launches(program, args, step) || state.attaches(pid@, step),
    ensures
        step.refused(DebugError::InferiorAlreadyActive),
{
}

/// A backend that owns no inferior refuses what needs one, without a system call.
pub proof fn without_an_inferior_there_is_nothing_to_do(
    state: BackendState,
    name: Seq<char>,
    value: u64,
    policy: ShutdownPolicy,
    step: Step,
)
    requires
        state.inferior is None,
        ({
            ||| state.resumes(step)
            ||| state.waits(step)
            ||| state.reads(name, step)
            ||| state.writes(name, value, step)
            ||| state.reads_all(step)
            ||| state.shuts_down(policy, step)
        }),
    ensures
        step.refused(DebugError::MissingInferior),
{
}

/// To shut down with `Detach` is to detach and nothing else: the process is not killed. Where that
/// succeeds, nothing is owned any more.
pub proof fn detach_does_not_kill(
    pre: BackendState,
    pid: i32,
    first: Step,
    answer: Answer,
    post: BackendState,
    last: Step,
)
    requires
        pre.inferior == Some(pid),
        pre.shuts_down(ShutdownPolicy::Detach, first),
        pre.goes_on(first, answer, post, last),
    ensures
        first matches Step::Ask { request, .. } && request == (Request::Detach { pid }),
        last is Done,
        last.succeeded() ==> post.inferior is None && post.ownership is None,
        !last.succeeded() ==> post == pre,
{
}

/// To shut down with `Terminate` is to kill the process, unless it is gone already, and then to
/// wait for its end. Where both succeed, nothing is owned any more.
pub proof fn terminate_kills_and_waits(
    pre: BackendState,
    pid: i32,
    first: Step,
    killed: Answer,
    mid: BackendState,
    second: Step,
    reaped: Answer,
    post: BackendState,
    last: Step,
)
    requires
        pre.inferior == Some(pid),
        pre.shuts_down(ShutdownPolicy::Terminate, first),
        pre.goes_on(first, killed, mid, second),
        mid.goes_on(second, reaped, post, last),
    ensures
        first matches Step::Ask { request, .. } && request == (Request::Kill { pid }),
        second == (Step::Wait { pid, until: AfterWait::Reaped }),
        mid == pre,
        last is Done,
        last.succeeded() ==> post.inferior is None && post.ownership is None,
        !last.succeeded() ==> post == pre,
{
}

/// A launch whose process stops before it is gone ends with that stop. The process is then owned,
/// and is killed when the backend goes away.
pub proof fn a_launch_owns_its_process(
    pre: BackendState,
    argv: Vec<Vec<u8>>,
    child: Spawned,
    status: WaitStatus,
    started: BackendState,
    waiting: Step,
    stopped: BackendState,
    asking: Step,
    post: BackendState,
    last: Step,
)
    requires
        child.report@.len() == 0,
        status.pid() == Some(child.pid),
        child.pid > 0,
        !status.reason().is_final(),
        pre.goes_on(Step::Spawn { argv }, Answer::Spawn(Ok(child)), started, waiting),
        started.goes_on(waiting, Answer::Wait(Ok(status)), stopped, asking),
        stopped.goes_on(asking, Answer::Ask(Ok(())), post, last),
    ensures
        post == pre.owning(child.pid, InferiorOwnership::Launched).counted(),
        post.fallback_policy() == Some(ShutdownPolicy::Terminate),
        last matches Step::Done(Reply::Stop(Ok(event))) && event.tid@ == child.pid && event.reason
            == status.reason(),
{
}

/// An attach to a process that stops before it is gone ends with that stop. The process is then
/// owned, and is detached from when the backend goes away.
pub proof fn an_attach_owns_its_process(
    pre: BackendState,
    pid: i32,
    status: WaitStatus,
    first: Step,
    attached: BackendState,
    waiting: Step,
    stopped: BackendState,
    asking: Step,
    post: BackendState,
    last: Step,
)
    requires
        pre.inferior is None,
        pid > 0,
        status.pid() == Some(pid),
        !status.reason().is_final(),
        pre.attaches(pid as int, first),
        pre.goes_on(first, Answer::Ask(Ok(())), attached, waiting),
        attached.goes_on(waiting, Answer::Wait(Ok(status)), stopped, asking),
        stopped.goes_on(asking, Answer::Ask(Ok(())), post, last),
    ensures
        post == pre.counted().owning(pid, InferiorOwnership::Attached).counted(),
        post.fallback_policy() == Some(ShutdownPolicy::Detach),
        last matches Step::Done(Reply::Stop(Ok(event))) && event.tid@ == pid && event.reason
            == status.reason(),
{
}

/// Once a wait shows that the process is gone, nothing is owned any more, and nothing is left to
/// do when the backend goes away.
pub proof fn a_process_that_is_gone_is_let_go(
    pre: BackendState,
    pid: i32,
    until: AfterWait,
    status: WaitStatus,
    post: BackendState,
    last: Step,
)
    requires
        !(until is Reaped),
        status.reason().is_final(),
        status.pid() matches Some(tid) && tid > 0,
        pre.goes_on(Step::Wait { pid, until }, Answer::Wait(Ok(status)), post, last),
    ensures
        post == pre.released(),
        post.fallback_policy() is None,
        last matches Step::Done(Reply::Stop(Ok(event))) && event.reason == status.reason(),
{
}

/// A write to a register that does not exist leaves the registers of the process alone.
pub proof fn an_unknown_register_is_not_written(
    pre: BackendState,
    pid: i32,
    name: String,
    value: u64,
    answer: Answer,
    post: BackendState,
    last: Step,
)
    requires
        names_nothing(name@),
        pre.goes_on(
            Step::GetRegs { pid, purpose: AfterRegs::Write { pid, name, value } },
            answer,
            post,
            last,
        ),
    ensures
        last is Done,
        post.inferior == pre.inferior,
{
}

/// What the child of a launch reports becomes the error of the launch, and nothing is owned that
/// was not owned before.
pub proof fn the_report_of_the_child_is_the_error(
    pre: BackendState,
    argv: Vec<Vec<u8>>,
    text: Seq<char>,
    child: Spawned,
    post: BackendState,
    last: Step,
)
    requires
        text.len() > 0,
        child.report@ == encode_utf8(text),
        pre.goes_on(Step::Spawn { argv }, Answer::Spawn(Ok(child)), post, last),
    ensures
        post == pre,
        last matches Step::Done(Reply::Stop(Err(DebugError::Backend(cause)))) && cause@
            == "child failed before exec: "@ + text,
{
    encode_utf8_valid_utf8(text);
    encode_utf8_decode_utf8(text);
}

} // verus!
