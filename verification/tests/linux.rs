use std::collections::VecDeque;

use dbg_rs::domain::{
    DebugError, ProcessId, RegisterValue, ShutdownPolicy, StopEvent, StopReason,
};
use dbg_rs::linux::{
    errno_error, exec_report, traceme_report, LinuxBackend, Reply, Request, Spawned, Step,
    WaitStatus, ECHILD, EINVAL, ESRCH,
};
use dbg_rs::registers::UserRegs;

const EPERM: i32 = 1;
const ENOENT: i32 = 2;
const SIGTRAP: i32 = 5;

/// A system with one process in it.
struct System {
    alive: bool,
    regs: UserRegs,
    spawned: Option<Result<Spawned, i32>>,
    waits: VecDeque<Result<WaitStatus, i32>>,
    fails: Vec<(Request, i32)>,
    requests: Vec<Request>,
    argv: Vec<Vec<u8>>,
}

impl System {
    fn new(waits: &[Result<WaitStatus, i32>]) -> Self {
        System {
            alive: true,
            regs: UserRegs::default(),
            spawned: Some(Ok(Spawned { pid: 77, report: Vec::new() })),
            waits: waits.iter().copied().collect(),
            fails: Vec::new(),
            requests: Vec::new(),
            argv: Vec::new(),
        }
    }

    fn ask(&mut self, request: Request) -> Result<(), i32> {
        self.requests.push(request);
        if let Some((_, errno)) = self.fails.iter().find(|(failing, _)| *failing == request) {
            return Err(*errno);
        }
        match request {
            Request::SetRegs { regs, .. } => self.regs = regs,
            Request::Kill { .. } => self.alive = false,
            _ => {}
        }
        Ok(())
    }

    fn run(&mut self, backend: &mut LinuxBackend, first: Step) -> Reply {
        let mut step = first;
        loop {
            step = match step {
                Step::Spawn { argv } => {
                    self.argv = argv;
                    backend.after_spawn(self.spawned.take().expect("one spawn"))
                }
                Step::Ask { request, then } => {
                    let outcome = self.ask(request);
                    backend.after_request(then, outcome)
                }
                Step::Wait { pid, until } => {
                    let outcome = self.waits.pop_front().expect("a status to wait for");
                    backend.after_wait(pid, until, outcome)
                }
                Step::GetRegs { purpose, .. } => {
                    let regs = self.regs;
                    backend.after_regs(purpose, Ok(regs))
                }
                Step::Done(reply) => return reply,
            };
        }
    }
}

fn stop_of(reply: Reply) -> Result<StopEvent, DebugError> {
    match reply {
        Reply::Stop(outcome) => outcome,
        other => panic!("{other:?}"),
    }
}

fn unit_of(reply: Reply) -> Result<(), DebugError> {
    match reply {
        Reply::Unit(outcome) => outcome,
        other => panic!("{other:?}"),
    }
}

fn register_of(reply: Reply) -> Result<RegisterValue, DebugError> {
    match reply {
        Reply::Register(outcome) => outcome,
        other => panic!("{other:?}"),
    }
}

fn trap() -> Result<WaitStatus, i32> {
    Ok(WaitStatus::Stopped { pid: 77, signal: SIGTRAP })
}

fn launched(system: &mut System, program: &str, args: &[String]) -> LinuxBackend {
    let mut backend = LinuxBackend::new();
    let first = backend.launch(program, args);
    stop_of(system.run(&mut backend, first)).expect("launch should stop");
    backend
}

#[test]
fn launch_nonexistent_binary_fails() {
    let mut system = System::new(&[]);
    system.spawned = Some(Ok(Spawned { pid: 77, report: exec_report(ENOENT).into_bytes() }));
    let mut backend = LinuxBackend::new();
    let first = backend.launch("/definitely/not/a/real/binary", &[]);
    let err = stop_of(system.run(&mut backend, first)).expect_err("launch should fail");
    let msg = err.to_string();
    assert!(msg.contains("execvp"));
    assert_eq!(
        msg,
        "backend error: child failed before exec: execvp failed: ENOENT: No such file or directory"
    );
    assert!(backend.active_process().is_none());
    assert_eq!(backend.ptrace_call_count(), 0);
}

#[test]
fn launch_true_can_exit_after_continue() {
    let mut system = System::new(&[trap(), Ok(WaitStatus::Exited { pid: 77, code: 0 })]);
    let mut backend = launched(&mut system, "/bin/true", &[]);
    assert_eq!(system.argv, [b"/bin/true".to_vec()]);
    assert_eq!(backend.ptrace_call_count(), 1);
    let first = backend.resume();
    unit_of(system.run(&mut backend, first)).expect("resume should work");
    assert_eq!(backend.ptrace_call_count(), 2);
    let first = backend.wait_for_stop();
    let stop = stop_of(system.run(&mut backend, first)).expect("wait should finish");
    assert!(matches!(stop.reason, StopReason::Exited { .. }));
    assert!(backend.active_process().is_none());
    assert!(backend.fallback_policy().is_none());
    assert_eq!(
        system.requests,
        [Request::SetOptions { pid: 77 }, Request::Cont { pid: 77 }]
    );
}

#[test]
fn shutdown_terminate_clears_active_process() {
    let killed = Ok(WaitStatus::Signaled { pid: 77, signal: 9, core_dumped: false });
    let mut system = System::new(&[trap(), killed]);
    let args = vec!["30".to_string()];
    let mut backend = launched(&mut system, "/bin/sleep", &args);
    assert_eq!(system.argv, [b"/bin/sleep".to_vec(), b"30".to_vec()]);
    assert!(backend.active_process().is_some());
    assert_eq!(backend.fallback_policy(), Some(ShutdownPolicy::Terminate));

    let first = backend.shutdown(ShutdownPolicy::Terminate);
    unit_of(system.run(&mut backend, first)).expect("terminate should succeed");
    assert!(backend.active_process().is_none());
    assert!(!system.alive);
    assert_eq!(backend.ptrace_call_count(), 1);
}

#[test]
fn shutdown_detach_keeps_process_alive() {
    let mut system = System::new(&[trap()]);
    let pid = ProcessId::new(77).expect("child pid must be positive");
    let mut backend = LinuxBackend::new();

    let first = backend.attach(pid);
    stop_of(system.run(&mut backend, first)).expect("attach should stop target");
    assert_eq!(backend.ptrace_call_count(), 2);
    assert_eq!(backend.fallback_policy(), Some(ShutdownPolicy::Detach));
    let first = backend.shutdown(ShutdownPolicy::Detach);
    unit_of(system.run(&mut backend, first)).expect("detach should succeed");
    assert!(backend.active_process().is_none());
    assert_eq!(backend.ptrace_call_count(), 3);

    assert!(system.alive);
    assert_eq!(
        system.requests,
        [
            Request::Attach { pid: 77 },
            Request::SetOptions { pid: 77 },
            Request::Detach { pid: 77 }
        ]
    );
}

#[test]
fn register_alias_read_write_works_on_live_inferior() {
    let killed = Ok(WaitStatus::Signaled { pid: 77, signal: 9, core_dumped: false });
    let mut system = System::new(&[trap(), killed]);
    let args = vec!["30".to_string()];
    let mut backend = launched(&mut system, "/bin/sleep", &args);

    let first = backend.write_register("rax", 0xFFFF_0000_1111_2222);
    register_of(system.run(&mut backend, first)).expect("write rax");
    let first = backend.write_register("eax", 0xAABB_CCDD);
    register_of(system.run(&mut backend, first)).expect("write eax");
    let first = backend.read_register("rax");
    let rax_after_eax = register_of(system.run(&mut backend, first)).expect("read rax");
    assert_eq!(rax_after_eax.value, 0x0000_0000_AABB_CCDD);

    let first = backend.write_register("ah", 0x12);
    register_of(system.run(&mut backend, first)).expect("write ah");
    let first = backend.read_register("rax");
    let rax_after_ah = register_of(system.run(&mut backend, first)).expect("read rax");
    assert_eq!(rax_after_ah.value, 0x0000_0000_AABB_12DD);

    let first = backend.read_all_registers();
    let all = match system.run(&mut backend, first) {
        Reply::Registers(outcome) => outcome.expect("read all"),
        other => panic!("{other:?}"),
    };
    assert!(all.iter().any(|reg| reg.name == "rip"));
    assert!(all.iter().any(|reg| reg.name == "rflags"));
    assert_eq!(backend.ptrace_call_count(), 1 + 3 * 2 + 2 + 1);

    let first = backend.shutdown(ShutdownPolicy::Terminate);
    unit_of(system.run(&mut backend, first)).expect("terminate should succeed");
    assert!(backend.active_process().is_none());
}

#[test]
fn error_numbers_have_their_text() {
    assert_eq!(
        errno_error(EPERM).to_string(),
        "backend error: EPERM: Operation not permitted"
    );
    assert_eq!(errno_error(ESRCH).to_string(), "backend error: ESRCH: No such process");
    assert_eq!(
        traceme_report(EPERM),
        "ptrace(TRACEME) failed: EPERM: Operation not permitted"
    );
    assert_eq!(errno_error(12345).to_string(), "backend error: UnknownErrno: Unknown errno");
}

#[test]
fn a_report_that_is_not_utf8_is_shown_with_replacements() {
    let mut backend = LinuxBackend::new();
    let step = backend.after_spawn(Ok(Spawned { pid: 5, report: vec![b'n', 0xFF, b'o'] }));
    let Step::Done(reply) = step else { panic!("not done") };
    let err = stop_of(reply).expect_err("must fail");
    assert_eq!(
        err.to_string(),
        "backend error: child failed before exec: n\u{fffd}o"
    );
}

#[test]
fn a_spawn_that_fails_leaves_nothing_owned() {
    let mut backend = LinuxBackend::new();
    let step = backend.after_spawn(Err(EPERM));
    let Step::Done(reply) = step else { panic!("not done") };
    assert!(stop_of(reply).is_err());
    assert!(backend.active_process().is_none());
}

#[test]
fn a_zero_in_an_argument_is_refused() {
    let backend = LinuxBackend::new();
    let args = vec!["fine".to_string(), "a\0b\0".to_string(), "\0".to_string()];
    let Step::Done(reply) = backend.launch("/bin/echo", &args) else { panic!("not done") };
    let err = stop_of(reply).expect_err("must fail");
    assert_eq!(
        err.to_string(),
        "backend error: nul byte found in provided data at position: 1"
    );
    let argv = LinuxBackend::build_argv("\u{e9}", &[]).expect("no zero");
    assert_eq!(argv, ["\u{e9}".as_bytes().to_vec()]);
}

#[test]
fn a_second_inferior_is_refused_by_the_backend() {
    let mut system = System::new(&[trap()]);
    let backend = launched(&mut system, "/bin/true", &[]);
    let Step::Done(reply) = backend.launch("/bin/true", &[]) else { panic!("not done") };
    assert!(matches!(stop_of(reply), Err(DebugError::InferiorAlreadyActive)));
    let pid = ProcessId::new(78).expect("valid pid");
    let Step::Done(reply) = backend.attach(pid) else { panic!("not done") };
    assert!(matches!(stop_of(reply), Err(DebugError::InferiorAlreadyActive)));
}

#[test]
fn without_an_inferior_everything_else_is_refused() {
    let backend = LinuxBackend::default();
    for step in [
        backend.resume(),
        backend.wait_for_stop(),
        backend.read_register("rax"),
        backend.write_register("rax", 1),
        backend.read_all_registers(),
        backend.shutdown(ShutdownPolicy::Detach),
        backend.shutdown(ShutdownPolicy::Terminate),
    ] {
        let Step::Done(reply) = step else { panic!("not done") };
        let refused = match reply {
            Reply::Stop(outcome) => matches!(outcome, Err(DebugError::MissingInferior)),
            Reply::Unit(outcome) => matches!(outcome, Err(DebugError::MissingInferior)),
            Reply::Register(outcome) => matches!(outcome, Err(DebugError::MissingInferior)),
            Reply::Registers(outcome) => matches!(outcome, Err(DebugError::MissingInferior)),
        };
        assert!(refused);
    }
    assert!(backend.active_process().is_none());
    assert!(backend.fallback_policy().is_none());
}

#[test]
fn every_wait_status_is_classified() {
    let reason = |status| LinuxBackend::next_stop_event(status).expect("a stop").reason;
    assert_eq!(
        reason(WaitStatus::Stopped { pid: 3, signal: 11 }),
        StopReason::Signal { signal: 11 }
    );
    assert_eq!(
        reason(WaitStatus::PtraceEvent { pid: 3, signal: 5, event: 4 }),
        StopReason::PtraceEvent { event: 4, signal: 5 }
    );
    assert_eq!(reason(WaitStatus::PtraceSyscall { pid: 3 }), StopReason::SyscallTrap);
    assert_eq!(
        reason(WaitStatus::Exited { pid: 3, code: 7 }),
        StopReason::Exited { code: 7 }
    );
    assert_eq!(
        reason(WaitStatus::Signaled { pid: 3, signal: 6, core_dumped: true }),
        StopReason::Terminated { signal: 6, core_dumped: true }
    );
    assert_eq!(reason(WaitStatus::Continued { pid: 3 }), StopReason::Unknown);
    let event = LinuxBackend::next_stop_event(WaitStatus::Continued { pid: 3 }).expect("a stop");
    assert_eq!(event.tid.get(), 3);
    let err = LinuxBackend::next_stop_event(WaitStatus::StillAlive).expect_err("no stop");
    assert_eq!(err.to_string(), "backend error: waitpid returned StillAlive");
    assert!(matches!(
        LinuxBackend::next_stop_event(WaitStatus::PtraceSyscall { pid: 0 }),
        Err(DebugError::InvalidPid(0))
    ));
}

#[test]
fn idle_statuses_are_waited_out() {
    let mut system = System::new(&[
        trap(),
        Ok(WaitStatus::StillAlive),
        Ok(WaitStatus::Continued { pid: 77 }),
        Ok(WaitStatus::PtraceSyscall { pid: 77 }),
    ]);
    let mut backend = launched(&mut system, "/bin/true", &[]);
    let first = backend.wait_for_stop();
    let stop = stop_of(system.run(&mut backend, first)).expect("a stop");
    assert_eq!(stop.reason, StopReason::SyscallTrap);
    assert!(backend.active_process().is_some());
    assert!(system.waits.is_empty());
}

#[test]
fn a_first_stop_that_is_an_exit_is_let_go() {
    let mut system = System::new(&[Ok(WaitStatus::Exited { pid: 77, code: 1 })]);
    let backend = launched(&mut system, "/bin/true", &[]);
    assert!(backend.active_process().is_none());
    assert!(system.requests.is_empty());
    assert_eq!(backend.ptrace_call_count(), 0);
}

#[test]
fn a_failed_wait_keeps_the_inferior() {
    let mut system = System::new(&[Err(EPERM)]);
    let mut backend = LinuxBackend::new();
    let first = backend.launch("/bin/true", &[]);
    assert!(stop_of(system.run(&mut backend, first)).is_err());
    assert_eq!(backend.active_process().map(|pid| pid.get()), Some(77));
    assert_eq!(backend.fallback_policy(), Some(ShutdownPolicy::Terminate));
}

#[test]
fn failed_requests_are_not_counted() {
    let mut system = System::new(&[trap()]);
    let mut backend = launched(&mut system, "/bin/true", &[]);
    system.fails.push((Request::Cont { pid: 77 }, ESRCH));
    let first = backend.resume();
    let err = unit_of(system.run(&mut backend, first)).expect_err("must fail");
    assert_eq!(err.to_string(), "backend error: ESRCH: No such process");
    assert_eq!(backend.ptrace_call_count(), 1);
}

#[test]
fn an_unknown_register_writes_nothing() {
    let mut system = System::new(&[trap()]);
    let mut backend = launched(&mut system, "/bin/true", &[]);
    let first = backend.write_register("nope", 1);
    assert!(matches!(
        register_of(system.run(&mut backend, first)),
        Err(DebugError::UnknownRegister(name)) if name == "nope"
    ));
    assert_eq!(system.requests, [Request::SetOptions { pid: 77 }]);
    assert_eq!(backend.ptrace_call_count(), 2);
}

#[test]
fn registers_that_cannot_be_read_are_an_error() {
    let mut system = System::new(&[trap()]);
    let mut backend = launched(&mut system, "/bin/true", &[]);
    let Step::GetRegs { pid, purpose } = backend.read_register("rax") else { panic!("no read") };
    assert_eq!(pid, 77);
    let Step::Done(reply) = backend.after_regs(purpose, Err(ESRCH)) else { panic!("not done") };
    assert!(register_of(reply).is_err());
    let Step::GetRegs { purpose, .. } = backend.read_all_registers() else { panic!("no read") };
    let Step::Done(reply) = backend.after_regs(purpose, Err(ESRCH)) else { panic!("not done") };
    assert!(matches!(reply, Reply::Registers(Err(DebugError::Backend(_)))));
    assert_eq!(backend.ptrace_call_count(), 1);
}

#[test]
fn a_process_that_is_gone_can_be_shut_down() {
    for errno in [ESRCH, EINVAL] {
        let mut system = System::new(&[trap()]);
        let mut backend = launched(&mut system, "/bin/true", &[]);
        system.fails.push((Request::Detach { pid: 77 }, errno));
        let first = backend.shutdown(ShutdownPolicy::Detach);
        unit_of(system.run(&mut backend, first)).expect("detach should succeed");
        assert!(backend.active_process().is_none());
        assert_eq!(backend.ptrace_call_count(), 2);
    }
    let mut system = System::new(&[trap(), Err(ECHILD)]);
    let mut backend = launched(&mut system, "/bin/true", &[]);
    system.fails.push((Request::Kill { pid: 77 }, ESRCH));
    let first = backend.shutdown(ShutdownPolicy::Terminate);
    unit_of(system.run(&mut backend, first)).expect("terminate should succeed");
    assert!(backend.active_process().is_none());
}

#[test]
fn a_shutdown_that_fails_keeps_the_inferior() {
    let mut system = System::new(&[trap(), Err(EPERM)]);
    let mut backend = launched(&mut system, "/bin/true", &[]);
    system.fails.push((Request::Detach { pid: 77 }, EPERM));
    let first = backend.shutdown(ShutdownPolicy::Detach);
    assert!(unit_of(system.run(&mut backend, first)).is_err());
    let first = backend.shutdown(ShutdownPolicy::Terminate);
    assert!(unit_of(system.run(&mut backend, first)).is_err());
    system.fails.push((Request::Kill { pid: 77 }, EINVAL));
    let first = backend.shutdown(ShutdownPolicy::Terminate);
    assert!(unit_of(system.run(&mut backend, first)).is_err());
    assert_eq!(backend.active_process().map(|pid| pid.get()), Some(77));
    assert_eq!(backend.ptrace_call_count(), 1);
}
