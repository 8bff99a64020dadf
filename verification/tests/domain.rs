use dbg_rs::domain::{
    DebugBackend, DebugError, ProcessId, RegisterValue, ShutdownPolicy, StopEvent, StopReason,
    ThreadId,
};

#[test]
fn process_id_rejects_zero() {
    assert!(ProcessId::new(0).is_err());
}

#[test]
fn stop_reason_display_stable() {
    let msg = StopReason::Signal { signal: 5 }.to_string();
    assert_eq!(msg, "signal-stop(sig=5)");
}

#[test]
fn register_display_width_matches_bits() {
    let v = RegisterValue {
        name: "eax",
        bits: 32,
        value: 0x12ab,
    };
    assert_eq!(v.to_string(), "eax: 0x000012ab (4779) [32-bit]");
}

struct Inert;

impl DebugBackend for Inert {
    fn launch(&mut self, _program: &str, _args: &[String]) -> Result<StopEvent, DebugError> {
        Ok(StopEvent { tid: ThreadId::new(7)?, reason: StopReason::SyscallTrap })
    }
    fn attach(&mut self, _pid: ProcessId) -> Result<StopEvent, DebugError> {
        Err(DebugError::backend("no attach"))
    }
    fn resume(&mut self) -> Result<(), DebugError> {
        Ok(())
    }
    fn wait_for_stop(&mut self) -> Result<StopEvent, DebugError> {
        Err(DebugError::MissingInferior)
    }
    fn read_register(&mut self, name: &str) -> Result<RegisterValue, DebugError> {
        Err(DebugError::UnknownRegister(name.to_string()))
    }
    fn write_register(&mut self, name: &str, _value: u64) -> Result<RegisterValue, DebugError> {
        Err(DebugError::UnknownRegister(name.to_string()))
    }
    fn read_all_registers(&mut self) -> Result<Vec<RegisterValue>, DebugError> {
        Ok(vec![])
    }
    fn shutdown(&mut self, _policy: ShutdownPolicy) -> Result<(), DebugError> {
        Ok(())
    }
    fn active_process(&self) -> Option<ProcessId> {
        None
    }
}

#[test]
fn a_backend_need_not_count_ptrace_calls() {
    assert_eq!(Inert.ptrace_call_count(), 0);
}

#[test]
fn ids_keep_what_they_were_made_of() {
    assert_eq!(ProcessId::new(1).expect("valid pid").get(), 1);
    assert_eq!(ThreadId::new(i32::MAX).expect("valid tid").get(), i32::MAX);
    assert_eq!(ProcessId::new(7).expect("valid pid"), ProcessId::new(7).expect("valid pid"));
    assert_ne!(ThreadId::new(7).expect("valid tid"), ThreadId::new(8).expect("valid tid"));
    assert!(matches!(ProcessId::new(-1), Err(DebugError::InvalidPid(-1))));
    assert!(matches!(ThreadId::new(0), Err(DebugError::InvalidPid(0))));
}

#[test]
fn every_error_has_its_text() {
    assert_eq!(DebugError::InvalidPid(-7).to_string(), "invalid pid: -7");
    assert_eq!(DebugError::MissingInferior.to_string(), "no active inferior process");
    assert_eq!(
        DebugError::InferiorAlreadyActive.to_string(),
        "inferior process is already active"
    );
    assert_eq!(
        DebugError::UnknownRegister("xyz".to_string()).to_string(),
        "unknown register: xyz"
    );
    assert_eq!(DebugError::backend(12).to_string(), "backend error: 12");
    let io = DebugError::from(std::io::Error::new(std::io::ErrorKind::Other, "disk on fire"));
    assert!(matches!(io, DebugError::Io(_)));
    assert_eq!(io.to_string(), "io error: disk on fire");
}

#[test]
fn every_stop_reason_has_its_text() {
    assert_eq!(
        StopReason::PtraceEvent { event: 3, signal: 5 }.to_string(),
        "ptrace-event(event=3, sig=5)"
    );
    assert_eq!(StopReason::SyscallTrap.to_string(), "syscall-trap");
    assert_eq!(StopReason::Exited { code: -1 }.to_string(), "exited(code=-1)");
    assert_eq!(
        StopReason::Terminated { signal: 9, core_dumped: true }.to_string(),
        "terminated(sig=9, core_dumped=true)"
    );
    assert_eq!(
        StopReason::Terminated { signal: 15, core_dumped: false }.to_string(),
        "terminated(sig=15, core_dumped=false)"
    );
    assert_eq!(StopReason::Unknown.to_string(), "unknown-stop");
}

#[test]
fn only_the_end_of_a_process_is_final() {
    assert!(StopReason::Exited { code: 0 }.ends_process());
    assert!(StopReason::Terminated { signal: 9, core_dumped: false }.ends_process());
    assert!(!StopReason::Signal { signal: 9 }.ends_process());
    assert!(!StopReason::SyscallTrap.ends_process());
    assert!(!StopReason::PtraceEvent { event: 6, signal: 5 }.ends_process());
    assert!(!StopReason::Unknown.ends_process());
}

#[test]
fn hex_width_follows_the_bits() {
    let width = |bits: u8| RegisterValue { name: "x", bits, value: 0 }.hex_width();
    assert_eq!(width(8), 2);
    assert_eq!(width(16), 4);
    assert_eq!(width(32), 8);
    assert_eq!(width(64), 16);
    assert_eq!(width(9), 3);
    let all = RegisterValue { name: "rip", bits: 64, value: u64::MAX };
    assert_eq!(all.to_string(), "rip: 0xffffffffffffffff (18446744073709551615) [64-bit]");
    let none = RegisterValue { name: "al", bits: 8, value: 0 };
    assert_eq!(none.to_string(), "al: 0x00 (0) [8-bit]");
}
