use dbg_rs::commands::{parse_line, ReplCommand};
use dbg_rs::domain::{
    DebugBackend, DebugError, ProcessId, RegisterValue, ShutdownPolicy, StopEvent, StopReason,
    ThreadId,
};
use dbg_rs::engine::{DebugEngine, EngineState, RunState};
use dbg_rs::metrics::StopPathSnapshot;
use dbg_rs::session::{
    continue_cycle, execute, first_cycle, help_lines, metrics_lines, register_lines,
    safe_detach_on_exit, start, status_lines, stop_line, Command, Line, Next, Turn,
};

/// A backend whose process stops `stops` times and then exits.
struct Countdown {
    active: Option<ProcessId>,
    stops: u32,
    detachable: bool,
    registers: Vec<RegisterValue>,
}

impl Countdown {
    fn new(stops: u32) -> Self {
        Countdown {
            active: None,
            stops,
            detachable: true,
            registers: vec![RegisterValue { name: "rip", bits: 64, value: 0x1000 }],
        }
    }

    fn stop(reason: StopReason) -> Result<StopEvent, DebugError> {
        Ok(StopEvent { tid: ThreadId::new(42)?, reason })
    }
}

impl DebugBackend for Countdown {
    fn launch(&mut self, program: &str, args: &[String]) -> Result<StopEvent, DebugError> {
        if program == "missing" {
            return Err(DebugError::backend("no such program"));
        }
        self.active = ProcessId::new(42).ok();
        Countdown::stop(StopReason::Signal { signal: 5 + args.len() as i32 })
    }
    fn attach(&mut self, pid: ProcessId) -> Result<StopEvent, DebugError> {
        self.active = Some(pid);
        Countdown::stop(StopReason::Signal { signal: 19 })
    }
    fn resume(&mut self) -> Result<(), DebugError> {
        Ok(())
    }
    fn wait_for_stop(&mut self) -> Result<StopEvent, DebugError> {
        if self.stops == 0 {
            self.active = None;
            return Countdown::stop(StopReason::Exited { code: 0 });
        }
        self.stops -= 1;
        Countdown::stop(StopReason::SyscallTrap)
    }
    fn read_register(&mut self, name: &str) -> Result<RegisterValue, DebugError> {
        if name == "rip" {
            Ok(self.registers[0])
        } else {
            Err(DebugError::UnknownRegister(name.to_string()))
        }
    }
    fn write_register(&mut self, _name: &str, value: u64) -> Result<RegisterValue, DebugError> {
        Ok(RegisterValue { name: "rip", bits: 64, value })
    }
    fn read_all_registers(&mut self) -> Result<Vec<RegisterValue>, DebugError> {
        Ok(self.registers.clone())
    }
    fn shutdown(&mut self, _policy: ShutdownPolicy) -> Result<(), DebugError> {
        if !self.detachable {
            return Err(DebugError::backend("stuck"));
        }
        self.active = None;
        Ok(())
    }
    fn active_process(&self) -> Option<ProcessId> {
        self.active
    }
}

fn texts(lines: &[Line]) -> Vec<String> {
    lines
        .iter()
        .map(|line| match line {
            Line::Stdout(text) => format!("out {text}"),
            Line::Stderr(text) => format!("err {text}"),
        })
        .collect()
}

fn prompt(engine: &mut DebugEngine<Countdown>, line: &str) -> Vec<String> {
    let turn = execute(engine, parse_line(line)).expect("no way out");
    assert!(matches!(turn.next, Next::Prompt));
    texts(&turn.lines)
}

#[test]
fn a_launch_prints_its_stop() {
    let mut engine = DebugEngine::new(Countdown::new(0));
    assert_eq!(
        prompt(&mut engine, "run /bin/true a b"),
        ["out launch: tid=42 reason=signal-stop(sig=7) run_state=Stopped"]
    );
    assert_eq!(
        prompt(&mut engine, "run /bin/true"),
        ["err error: inferior process is already active"]
    );
    assert_eq!(
        prompt(&mut engine, "status"),
        [
            "out run_state: Stopped",
            "out active_process: 42",
            "out last_stop: tid=42 reason=signal-stop(sig=7)"
        ]
    );
}

#[test]
fn a_launch_that_fails_prints_its_error() {
    let mut engine = DebugEngine::new(Countdown::new(0));
    assert_eq!(
        prompt(&mut engine, "run missing"),
        ["err error: backend error: no such program"]
    );
    assert_eq!(
        prompt(&mut engine, "status"),
        ["out run_state: Idle", "out active_process: none", "out last_stop: none"]
    );
}

#[test]
fn an_attach_prints_its_stop() {
    let mut engine = DebugEngine::new(Countdown::new(0));
    assert_eq!(prompt(&mut engine, "attach 0"), ["err error: invalid pid: 0"]);
    assert_eq!(
        prompt(&mut engine, "attach 42"),
        ["out attach: tid=42 reason=signal-stop(sig=19) run_state=Stopped"]
    );
    assert_eq!(prompt(&mut engine, "detach"), ["out detached"]);
    assert_eq!(prompt(&mut engine, "detach"), ["err error: no active inferior process"]);
    assert_eq!(prompt(&mut engine, "kill"), ["err error: no active inferior process"]);
    prompt(&mut engine, "attach 43");
    assert_eq!(prompt(&mut engine, "terminate"), ["out terminated"]);
}

#[test]
fn registers_are_printed() {
    let mut engine = DebugEngine::new(Countdown::new(0));
    assert_eq!(
        prompt(&mut engine, "regs read rip"),
        ["out rip: 0x0000000000001000 (4096) [64-bit]"]
    );
    assert_eq!(prompt(&mut engine, "regs read zip"), ["err error: unknown register: zip"]);
    assert_eq!(
        prompt(&mut engine, "regs read all"),
        ["out rip: 0x0000000000001000 (4096) [64-bit]"]
    );
    assert_eq!(
        prompt(&mut engine, "regs write rip 0x20"),
        ["out rip: 0x0000000000000020 (32) [64-bit]"]
    );
    assert_eq!(texts(&register_lines(&Vec::new())), ["out no registers"]);
}

#[test]
fn what_is_not_understood_is_said() {
    let mut engine = DebugEngine::new(Countdown::new(0));
    assert_eq!(prompt(&mut engine, "  "), Vec::<String>::new());
    assert_eq!(prompt(&mut engine, "jump"), ["err unknown command: jump"]);
    assert_eq!(prompt(&mut engine, "run"), ["out usage: run <program> [args...]"]);
    let help = prompt(&mut engine, "help");
    assert_eq!(help.len(), 12);
    assert_eq!(help[0], "out commands:");
    assert_eq!(help[11], "out   quit|q|exit               exit repl (auto-detach)");
    assert_eq!(texts(&help_lines()), help);
    assert_eq!(engine.state(), EngineState::default());
}

#[test]
fn quitting_detaches() {
    let mut engine = DebugEngine::new(Countdown::new(0));
    prompt(&mut engine, "run /bin/true");
    let turn = execute(&mut engine, ReplCommand::Quit).expect("detach should succeed");
    assert!(matches!(turn.next, Next::Quit));
    assert_eq!(texts(&turn.lines), ["out auto-detached inferior"]);
    assert!(engine.state().active_process.is_none());
    let turn = execute(&mut engine, ReplCommand::Quit).expect("nothing to detach");
    assert!(turn.lines.is_empty());
}

#[test]
fn a_detach_that_fails_ends_the_prompt_with_its_error() {
    let mut backend = Countdown::new(0);
    backend.detachable = false;
    let mut engine = DebugEngine::new(backend);
    prompt(&mut engine, "run /bin/true");
    let err = safe_detach_on_exit(&mut engine).expect_err("must fail");
    assert_eq!(err.to_string(), "backend error: stuck");
    assert!(execute(&mut engine, ReplCommand::Quit).is_err());
    assert!(engine.state().active_process.is_some());
}

fn run_cycles(engine: &mut DebugEngine<Countdown>, count: u32) -> Vec<String> {
    let mut lines = Vec::new();
    let mut next = first_cycle(count);
    while let Some(idx) = next {
        let cycle = continue_cycle(engine, idx, count).expect("continue should stop");
        lines.push(cycle.line);
        next = cycle.next;
    }
    lines
}

#[test]
fn cycles_go_on_until_the_count_or_the_exit() {
    let mut engine = DebugEngine::new(Countdown::new(3));
    prompt(&mut engine, "run /bin/true");
    let turn = execute(&mut engine, parse_line("c 2")).expect("no way out");
    assert!(matches!(turn, Turn { next: Next::Cycles { count: 2 }, .. }));
    assert_eq!(
        run_cycles(&mut engine, 2),
        [
            "continue[0]: tid=42 reason=syscall-trap run_state=Stopped",
            "continue[1]: tid=42 reason=syscall-trap run_state=Stopped"
        ]
    );
    assert_eq!(run_cycles(&mut engine, 0), Vec::<String>::new());
    assert_eq!(
        run_cycles(&mut engine, 10),
        [
            "continue[0]: tid=42 reason=syscall-trap run_state=Stopped",
            "continue[1]: tid=42 reason=exited(code=0) run_state=Exited"
        ]
    );
    assert!(matches!(continue_cycle(&mut engine, 0, 1), Err(DebugError::MissingInferior)));
}

#[test]
fn commands_at_the_start_end_with_their_errors() {
    let mut engine = DebugEngine::new(Countdown::new(0));
    let turn = start(&mut engine, Command::Status).expect("status");
    assert!(matches!(turn.next, Next::Quit));
    assert_eq!(
        texts(&turn.lines),
        ["out run_state: Idle", "out active_process: none", "out last_stop: none"]
    );
    assert!(matches!(start(&mut engine, Command::Detach), Err(DebugError::MissingInferior)));
    assert!(matches!(start(&mut engine, Command::Kill), Err(DebugError::MissingInferior)));
    let bad = Command::Attach { pid: -1, continue_count: 1 };
    assert!(matches!(start(&mut engine, bad), Err(DebugError::InvalidPid(-1))));
    let missing =
        Command::Run { program: "missing".to_string(), args: Vec::new(), continue_count: 1 };
    assert!(matches!(start(&mut engine, missing), Err(DebugError::Backend(_))));

    let run = Command::Run {
        program: "/bin/true".to_string(),
        args: vec!["x".to_string()],
        continue_count: 4,
    };
    let turn = start(&mut engine, run).expect("launch");
    assert!(matches!(turn.next, Next::Cycles { count: 4 }));
    assert_eq!(
        texts(&turn.lines),
        ["out launch: tid=42 reason=signal-stop(sig=6) run_state=Stopped"]
    );
    let turn = start(&mut engine, Command::Continue { count: 2 }).expect("continue");
    assert!(turn.lines.is_empty() && matches!(turn.next, Next::Cycles { count: 2 }));
    let turn = start(&mut engine, Command::Detach).expect("detach");
    assert_eq!(texts(&turn.lines), ["out detached"]);
    let attach = Command::Attach { pid: 9, continue_count: 0 };
    let turn = start(&mut engine, attach).expect("attach");
    assert!(matches!(turn.next, Next::Cycles { count: 0 }));
    let turn = start(&mut engine, Command::Kill).expect("kill");
    assert_eq!(texts(&turn.lines), ["out terminated"]);
}

#[test]
fn metrics_are_printed() {
    let mut engine = DebugEngine::new(Countdown::new(1));
    let turn = execute(&mut engine, ReplCommand::Metrics).expect("metrics");
    assert!(turn.lines.is_empty());
    assert!(matches!(turn.next, Next::Metrics { snapshot } if snapshot.samples == 0));

    let snapshot = StopPathSnapshot {
        samples: 4,
        min_us: 1,
        p50_us: 2,
        p95_us: 3,
        p99_us: 30,
        max_us: 31,
        mean_us_bits: 0,
        total_ptrace_calls: 10,
    };
    assert_eq!(
        texts(&metrics_lines(&snapshot, "9.25", "2.50")),
        [
            "out stop_path_metrics:",
            "out   samples=4",
            "out   min_us=1",
            "out   p50_us=2",
            "out   p95_us=3",
            "out   p99_us=30",
            "out   max_us=31",
            "out   mean_us=9.25",
            "out   total_ptrace_calls=10",
            "out   avg_ptrace_calls_per_stop=2.50"
        ]
    );
}

#[test]
fn every_run_state_has_its_name() {
    let stop = StopEvent {
        tid: ThreadId::new(1).expect("valid tid"),
        reason: StopReason::Unknown,
    };
    assert_eq!(
        stop_line("x", stop, RunState::Running),
        "x: tid=1 reason=unknown-stop run_state=Running"
    );
    let state =
        EngineState { run_state: RunState::Exited, active_process: None, last_stop: Some(stop) };
    assert_eq!(
        texts(&status_lines(state)),
        [
            "out run_state: Exited",
            "out active_process: none",
            "out last_stop: tid=1 reason=unknown-stop"
        ]
    );
    assert_eq!(RunState::Idle.to_name(), "Idle");
    assert_eq!(RunState::Stopped.to_name(), "Stopped");
}
