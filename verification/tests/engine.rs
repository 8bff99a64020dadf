use dbg_rs::domain::{
    DebugBackend, DebugError, ProcessId, RegisterValue, ShutdownPolicy, StopEvent, StopReason,
    ThreadId,
};
use dbg_rs::engine::{DebugEngine, EngineState, RunState};

struct MockBackend {
    active: Option<ProcessId>,
    ptrace_calls: u64,
    next_stop: StopEvent,
}

impl MockBackend {
    fn new() -> Self {
        Self {
            active: Some(ProcessId::new(1234).expect("valid test pid")),
            ptrace_calls: 0,
            next_stop: StopEvent {
                tid: ThreadId::new(1234).expect("valid tid"),
                reason: StopReason::Signal { signal: 5 },
            },
        }
    }
}

impl DebugBackend for MockBackend {
    fn launch(&mut self, _program: &str, _args: &[String]) -> Result<StopEvent, DebugError> {
        Ok(self.next_stop)
    }

    fn attach(&mut self, _pid: ProcessId) -> Result<StopEvent, DebugError> {
        Ok(self.next_stop)
    }

    fn resume(&mut self) -> Result<(), DebugError> {
        self.ptrace_calls += 1;
        Ok(())
    }

    fn wait_for_stop(&mut self) -> Result<StopEvent, DebugError> {
        Ok(self.next_stop)
    }

    fn read_register(&mut self, _name: &str) -> Result<RegisterValue, DebugError> {
        Ok(RegisterValue {
            name: "rax",
            bits: 64,
            value: 0xdead_beef,
        })
    }

    fn write_register(&mut self, _name: &str, value: u64) -> Result<RegisterValue, DebugError> {
        Ok(RegisterValue {
            name: "rax",
            bits: 64,
            value,
        })
    }

    fn read_all_registers(&mut self) -> Result<Vec<RegisterValue>, DebugError> {
        Ok(vec![RegisterValue {
            name: "rax",
            bits: 64,
            value: 1,
        }])
    }

    fn shutdown(&mut self, _policy: ShutdownPolicy) -> Result<(), DebugError> {
        self.active = None;
        Ok(())
    }

    fn active_process(&self) -> Option<ProcessId> {
        self.active
    }

    fn ptrace_call_count(&self) -> u64 {
        self.ptrace_calls
    }
}

#[test]
fn continue_updates_state_and_metrics() {
    let mut engine = DebugEngine::new(MockBackend::new());

    let launch = engine
        .launch("/bin/true", &[])
        .expect("launch should provide initial stop event");
    assert_eq!(launch.reason, StopReason::Signal { signal: 5 });

    let stop = engine.continue_exec().expect("continue should stop again");
    assert_eq!(stop.reason, StopReason::Signal { signal: 5 });
    assert_eq!(engine.state().run_state, RunState::Stopped);

    let snap = engine.stop_path_snapshot();
    assert_eq!(snap.samples, 1);
    assert!(f64::from_bits(snap.mean_us_bits) >= 0.0);
}

#[test]
fn continue_requires_active_inferior() {
    let mut backend = MockBackend::new();
    backend.active = None;
    let mut engine = DebugEngine::new(backend);

    let err = engine
        .continue_exec()
        .expect_err("continue should fail without inferior");
    assert!(matches!(err, DebugError::MissingInferior));
}

#[test]
fn detach_transitions_to_idle() {
    let mut engine = DebugEngine::new(MockBackend::new());
    engine
        .launch("/bin/true", &[])
        .expect("launch should set active inferior");

    engine.detach().expect("detach should succeed");

    assert_eq!(engine.state().run_state, RunState::Idle);
    assert!(engine.state().active_process.is_none());
}

#[test]
fn engine_register_passthrough_works() {
    let mut engine = DebugEngine::new(MockBackend::new());
    engine
        .launch("/bin/true", &[])
        .expect("launch should activate backend");

    let rax = engine.read_register("rax").expect("read should work");
    assert_eq!(rax.value, 0xdead_beef);

    let updated = engine
        .write_register("rax", 0x1234)
        .expect("write should work");
    assert_eq!(updated.value, 0x1234);

    let all = engine.read_all_registers().expect("read_all should work");
    assert_eq!(all.len(), 1);
}

#[test]
fn a_new_engine_is_idle() {
    let engine = DebugEngine::new(MockBackend::new());
    assert_eq!(
        engine.state(),
        EngineState { run_state: RunState::Idle, active_process: None, last_stop: None }
    );
    assert_eq!(engine.state(), EngineState::default());
    let snap = engine.stop_path_snapshot();
    assert_eq!((snap.samples, snap.min_us, snap.max_us, snap.mean_us_bits), (0, 0, 0, 0));
    assert_eq!(snap.total_ptrace_calls, 0);
}

#[test]
fn a_second_inferior_is_refused_by_the_engine() {
    let mut engine = DebugEngine::new(MockBackend::new());
    engine.attach(ProcessId::new(1234).expect("valid pid")).expect("attach should stop");
    let before = engine.state();
    assert_eq!(before.run_state, RunState::Stopped);
    assert!(matches!(
        engine.launch("/bin/true", &[]),
        Err(DebugError::InferiorAlreadyActive)
    ));
    assert!(matches!(
        engine.attach(ProcessId::new(5).expect("valid pid")),
        Err(DebugError::InferiorAlreadyActive)
    ));
    assert_eq!(engine.state(), before);
}

#[test]
fn nothing_is_left_to_do_after_a_shutdown() {
    let mut engine = DebugEngine::new(MockBackend::new());
    engine.launch("/bin/true", &[]).expect("launch should stop");
    engine.terminate().expect("terminate should succeed");
    let idle = engine.state();
    assert_eq!(idle.run_state, RunState::Idle);
    assert!(idle.last_stop.is_some());
    assert!(matches!(engine.terminate(), Err(DebugError::MissingInferior)));
    assert!(matches!(engine.detach(), Err(DebugError::MissingInferior)));
    assert!(matches!(
        engine.shutdown(ShutdownPolicy::Detach),
        Err(DebugError::MissingInferior)
    ));
    assert!(matches!(engine.continue_exec(), Err(DebugError::MissingInferior)));
    assert_eq!(engine.state(), idle);
}

#[test]
fn an_exit_is_taken_over_into_the_state() {
    let mut backend = MockBackend::new();
    backend.next_stop.reason = StopReason::Exited { code: 3 };
    let mut engine = DebugEngine::new(backend);
    engine.launch("/bin/true", &[]).expect("launch should stop");
    let stop = engine.continue_exec().expect("continue should stop");
    let state = engine.state();
    assert_eq!(state.run_state, RunState::Exited);
    assert_eq!(state.last_stop, Some(stop));
}

#[test]
fn ptrace_calls_are_counted_per_stop() {
    let mut engine = DebugEngine::new(MockBackend::new());
    engine.launch("/bin/true", &[]).expect("launch should stop");
    for _ in 0..3 {
        engine.continue_exec().expect("continue should stop");
    }
    let snap = engine.stop_path_snapshot();
    assert_eq!(snap.samples, 3);
    assert!(f64::from_bits(snap.mean_us_bits) >= 1.0);
    assert_eq!(snap.total_ptrace_calls, 3);
    assert!(snap.min_us >= 1);
    assert!(snap.min_us <= snap.p50_us && snap.p50_us <= snap.p95_us);
    assert!(snap.p95_us <= snap.p99_us && snap.p99_us <= snap.max_us);
}

struct Failing {
    resumes: bool,
}

impl DebugBackend for Failing {
    fn launch(&mut self, _program: &str, _args: &[String]) -> Result<StopEvent, DebugError> {
        Ok(StopEvent { tid: ThreadId::new(9)?, reason: StopReason::SyscallTrap })
    }
    fn attach(&mut self, _pid: ProcessId) -> Result<StopEvent, DebugError> {
        Err(DebugError::backend("no attach"))
    }
    fn resume(&mut self) -> Result<(), DebugError> {
        if self.resumes {
            Ok(())
        } else {
            Err(DebugError::backend("no resume"))
        }
    }
    fn wait_for_stop(&mut self) -> Result<StopEvent, DebugError> {
        Err(DebugError::backend("no wait"))
    }
    fn read_register(&mut self, name: &str) -> Result<RegisterValue, DebugError> {
        Err(DebugError::UnknownRegister(name.to_string()))
    }
    fn write_register(&mut self, name: &str, _value: u64) -> Result<RegisterValue, DebugError> {
        Err(DebugError::UnknownRegister(name.to_string()))
    }
    fn read_all_registers(&mut self) -> Result<Vec<RegisterValue>, DebugError> {
        Err(DebugError::MissingInferior)
    }
    fn shutdown(&mut self, _policy: ShutdownPolicy) -> Result<(), DebugError> {
        Err(DebugError::backend("no shutdown"))
    }
    fn active_process(&self) -> Option<ProcessId> {
        ProcessId::new(9).ok()
    }
}

#[test]
fn errors_of_the_backend_come_through() {
    let mut engine = DebugEngine::new(Failing { resumes: false });
    let err = engine.attach(ProcessId::new(4).expect("valid pid")).expect_err("must fail");
    assert_eq!(err.to_string(), "backend error: no attach");
    assert_eq!(engine.state(), EngineState::default());

    engine.launch("/bin/true", &[]).expect("launch should stop");
    let err = engine.continue_exec().expect_err("must fail");
    assert_eq!(err.to_string(), "backend error: no resume");
    assert_eq!(engine.state().run_state, RunState::Stopped);
    assert_eq!(engine.stop_path_snapshot().samples, 0);

    let err = engine.detach().expect_err("must fail");
    assert_eq!(err.to_string(), "backend error: no shutdown");
    assert!(engine.state().active_process.is_some());
    assert_eq!(engine.state().run_state, RunState::Stopped);

    assert!(matches!(
        engine.read_register("zzz"),
        Err(DebugError::UnknownRegister(name)) if name == "zzz"
    ));
    assert!(matches!(engine.read_all_registers(), Err(DebugError::MissingInferior)));
}

#[test]
fn a_failed_resume_changes_nothing_in_the_state() {
    let mut engine = DebugEngine::new(Failing { resumes: false });
    engine.launch("/bin/true", &[]).expect("launch should stop");
    let before = engine.state();
    assert!(engine.continue_exec().is_err());
    assert_eq!(engine.state(), before);
}

#[test]
fn an_error_of_the_wait_leaves_the_engine_running() {
    let mut engine = DebugEngine::new(Failing { resumes: true });
    engine.launch("/bin/true", &[]).expect("launch should stop");
    let err = engine.continue_exec().expect_err("must fail");
    assert_eq!(err.to_string(), "backend error: no wait");
    assert_eq!(engine.state().run_state, RunState::Running);
    assert_eq!(engine.stop_path_snapshot().samples, 0);
}
