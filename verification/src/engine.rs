//! Debugger orchestration layer.
//!
//! The engine coordinates backend calls, enforces high-level lifecycle guards, tracks run state,
//! and records stop-path latency and ptrace metrics.

use crate::domain::{
    DebugBackend, DebugError, ProcessId, RegisterValue, ShutdownPolicy, StopEvent, StopReason,
};
#[allow(unused_imports)]
use crate::metrics::{micros_of, Accounts};
use crate::metrics::{StopPathMetrics, StopPathSnapshot};
#[allow(unused_imports)]
use vstd::multiset::Multiset;
use vstd::prelude::*;

verus! {

/// Coarse runtime state of the debugger session.
#[derive(Debug, Clone, Copy, PartialEq, Eq, Structural)]
pub enum RunState {
    /// No active inferior is owned.
    Idle,
    /// Inferior has been resumed and next stop is pending.
    Running,
    /// Inferior is currently stopped and inspectable.
    Stopped,
    /// Inferior has exited or was terminated.
    Exited,
}

/// In-memory state snapshot exposed to CLI and other callers.
#[derive(Debug, Clone, Copy, PartialEq, Eq, Structural)]
pub struct EngineState {
    /// Current run-state in the engine state machine.
    pub run_state: RunState,
    /// Active inferior process, if one is currently owned.
    pub active_process: Option<ProcessId>,
    /// Last observed stop event.
    pub last_stop: Option<StopEvent>,
}

impl Default for EngineState {
    fn default() -> (state: Self)
        ensures
            state == (EngineState {
                run_state: RunState::Idle,
                active_process: None,
                last_stop: None,
            }),
    {
        EngineState { run_state: RunState::Idle, active_process: None, last_stop: None }
    }
}

impl EngineState {
    /// The state after a stop event, with the process that the backend then reports.
    pub open spec fn stopped_by(event: StopEvent, active_process: Option<ProcessId>) -> Self {
        EngineState {
            run_state: if event.reason.is_final() {
                RunState::Exited
            } else {
                RunState::Stopped
            },
            active_process,
            last_stop: Some(event),
        }
    }

    /// What holds of every state that an engine reaches: an idle engine owns no inferior, a running
    /// one owns one, before the first stop the engine is idle, and whether it is stopped or exited
    /// goes by its last stop.
    pub open spec fn is_reachable(self) -> bool {
        &&& self.run_state is Idle ==> self.active_process is None
        &&& self.run_state is Running ==> self.active_process is Some
        &&& self.last_stop is None ==> self.run_state is Idle
        &&& self.run_state is Stopped ==> !self.last_stop->0.reason.is_final()
        &&& self.run_state is Exited ==> self.last_stop->0.reason.is_final()
    }

    /// Update the state based on a newly observed stop event, with the process that the backend
    /// reports after it.
    pub fn on_stop(&mut self, event: StopEvent, active_process: Option<ProcessId>)
        ensures
            *final(self) == EngineState::stopped_by(event, active_process),
    {
        self.active_process = active_process;
        self.last_stop = Some(event);
        self.run_state = match event.reason {
            StopReason::Exited { .. } | StopReason::Terminated { .. } => RunState::Exited,
            _ => RunState::Stopped,
        };
    }
}

/// `std::time::Instant`, carried through as it is.
#[verifier::external_type_specification]
#[verifier::external_body]
pub struct ExInstant(std::time::Instant);

/// Calls `std::time::Instant::now`. Nothing is promised of the time.
#[verifier::external_body]
fn instant_now() -> (now: std::time::Instant) {
    std::time::Instant::now()
}

/// Calls `std::time::Instant::elapsed`. Nothing is promised of the time.
#[verifier::external_body]
fn elapsed_since(started: &std::time::Instant) -> (elapsed: std::time::Duration) {
    started.elapsed()
}

/// The clock was read, and `latency` is what it showed to have passed since then.
pub closed spec fn measured(latency: std::time::Duration) -> bool {
    exists|started: std::time::Instant| #[trigger]
        call_ensures(instant_now, (), started) && call_ensures(elapsed_since, (&started,), latency)
}

/// Read the clock while the backend is in this state.
fn clock_at<B: DebugBackend>(_backend: &B) -> (started: std::time::Instant)
    ensures
        call_ensures(instant_now, (), started),
{
    instant_now()
}

/// Read the clock again, while the backend is in this state.
fn time_until<B: DebugBackend>(started: &std::time::Instant, _backend: &B) -> (latency:
    std::time::Duration)
    ensures
        call_ensures(elapsed_since, (started,), latency),
{
    elapsed_since(started)
}

/// The clock was read while the backend was in the state `from`, and `latency` is what it showed to
/// have passed since then when the backend was in the state `to`.
pub closed spec fn timed<B: DebugBackend>(from: B, to: B, latency: std::time::Duration) -> bool {
    exists|started: std::time::Instant| #[trigger]
        call_ensures(clock_at::<B>, (&from,), started) && call_ensures(
            time_until::<B>,
            (&started, &to),
            latency,
        ) && call_ensures(elapsed_since, (&started,), latency)
}

/// High-level debugger engine parameterized over a backend implementation.
pub struct DebugEngine<B: DebugBackend> {
    backend: B,
    state: EngineState,
    stop_path_metrics: StopPathMetrics,
}

/// The difference between two counts, or zero where the second is not the greater one.
pub open spec fn count_delta(before: u64, after: u64) -> u64 {
    if after > before {
        (after - before) as u64
    } else {
        0
    }
}

impl<B: DebugBackend> DebugEngine<B> {
    /// The backend that the engine drives.
    pub closed spec fn driven(self) -> B {
        self.backend
    }

    /// The current state.
    pub closed spec fn current(self) -> EngineState {
        self.state
    }

    /// The stop-path accounts.
    pub closed spec fn accounts(self) -> Accounts {
        self.stop_path_metrics@
    }

    /// Only the backend may differ.
    pub open spec fn same_but_backend(self, other: Self) -> bool {
        self.current() == other.current() && self.accounts() == other.accounts()
    }

    /// `post` is what `pre` becomes when its backend answered a launch or an attach with `outcome`:
    /// a stop is taken over into the state, and an error changes nothing there.
    pub open spec fn acquired(pre: Self, post: Self, outcome: Result<StopEvent, DebugError>) -> bool {
        &&& post.accounts() == pre.accounts()
        &&& match outcome {
            Ok(event) => exists|active: Option<ProcessId>| #[trigger]
                post.driven().reports(active) && post.current() == EngineState::stopped_by(
                    event,
                    active,
                ),
            Err(_) => post.current() == pre.current(),
        }
    }

    /// `launch` on `pre` may leave `post` and return `outcome`.
    pub open spec fn launches(
        pre: Self,
        program: Seq<char>,
        args: Seq<String>,
        post: Self,
        outcome: Result<StopEvent, DebugError>,
    ) -> bool {
        if pre.current().active_process is Some {
            outcome == Err::<StopEvent, DebugError>(DebugError::InferiorAlreadyActive) && post == pre
        } else {
            B::launches(pre.driven(), program, args, post.driven(), outcome) && Self::acquired(
                pre,
                post,
                outcome,
            )
        }
    }

    /// `attach` on `pre` may leave `post` and return `outcome`.
    pub open spec fn attaches(
        pre: Self,
        pid: ProcessId,
        post: Self,
        outcome: Result<StopEvent, DebugError>,
    ) -> bool {
        if pre.current().active_process is Some {
            outcome == Err::<StopEvent, DebugError>(DebugError::InferiorAlreadyActive) && post == pre
        } else {
            B::attaches(pre.driven(), pid, post.driven(), outcome) && Self::acquired(
                pre,
                post,
                outcome,
            )
        }
    }

    /// The state of an engine that has resumed its inferior and seen no stop since.
    pub open spec fn running(self) -> EngineState {
        EngineState { run_state: RunState::Running, ..self.current() }
    }

    /// A stop was added to the accounts of `pre` with this latency, which was measured from before
    /// the backend resumed until after it waited, and with the ptrace calls that the backend counted from `before` to `after`.
    pub open spec fn accounted(
        pre: Self,
        post: Self,
        latency: std::time::Duration,
        before: u64,
        after: u64,
    ) -> bool {
        &&& measured(latency)
        &&& timed(pre.driven(), post.driven(), latency)
        &&& call_ensures(B::ptrace_call_count, (&pre.driven(),), before)
        &&& call_ensures(B::ptrace_call_count, (&post.driven(),), after)
        &&& post.accounts() == pre.accounts().with(micros_of(latency), count_delta(before, after))
    }

    /// `continue_exec` on `pre` may leave `post` and return `outcome`: the backend resumed and
    /// then, unless that failed, waited. An error of the resume changes nothing in the state, and
    /// one of the wait leaves the engine running. A stop is taken over into the state, and accounted
    /// for with the latency that was measured and with the ptrace calls in between.
    pub open spec fn continues(
        pre: Self,
        post: Self,
        outcome: Result<StopEvent, DebugError>,
    ) -> bool {
        if pre.current().active_process is None {
            outcome == Err::<StopEvent, DebugError>(DebugError::MissingInferior) && post == pre
        } else {
            match outcome {
                Ok(event) => {
                    &&& exists|resumed: B| #[trigger]
                        B::resumes(pre.driven(), resumed, Ok(())) && B::waits(
                            resumed,
                            post.driven(),
                            outcome,
                        )
                    &&& exists|active: Option<ProcessId>| #[trigger]
                        post.driven().reports(active) && post.current() == EngineState::stopped_by(
                            event,
                            active,
                        )
                    &&& exists|latency: std::time::Duration, before: u64, after: u64| #[trigger]
                        Self::accounted(pre, post, latency, before, after)
                },
                Err(error) => {
                    &&& post.accounts() == pre.accounts()
                    &&& ({
                        ||| B::resumes(pre.driven(), post.driven(), Err(error)) && post.current()
                            == pre.current()
                        ||| post.current() == pre.running() && exists|resumed: B| #[trigger]
                            B::resumes(pre.driven(), resumed, Ok(())) && B::waits(
                                resumed,
                                post.driven(),
                                outcome,
                            )
                    })
                },
            }
        }
    }

    /// `shutdown` on `pre` may leave `post` and return `outcome`.
    pub open spec fn shuts_down(
        pre: Self,
        policy: ShutdownPolicy,
        post: Self,
        outcome: Result<(), DebugError>,
    ) -> bool {
        if pre.current().active_process is None {
            outcome == Err::<(), DebugError>(DebugError::MissingInferior) && post == pre
        } else {
            &&& B::shuts_down(pre.driven(), policy, post.driven(), outcome)
            &&& post.accounts() == pre.accounts()
            &&& post.current() == if outcome is Ok {
                EngineState {
                    run_state: RunState::Idle,
                    active_process: None,
                    last_stop: pre.current().last_stop,
                }
            } else {
                pre.current()
            }
        }
    }

    /// Create a new engine from a backend.
    pub fn new(backend: B) -> (engine: Self)
        ensures
            engine.driven() == backend,
            engine.current() == (EngineState {
                run_state: RunState::Idle,
                active_process: None,
                last_stop: None,
            }),
            engine.current().is_reachable(),
            engine.accounts() == (Accounts { levels: Multiset::empty(), ptrace_calls: 0 }),
    {
        DebugEngine {
            backend,
            state: EngineState::default(),
            stop_path_metrics: StopPathMetrics::default(),
        }
    }

    /// Launch a new inferior process.
    ///
    /// Fails with [`DebugError::InferiorAlreadyActive`] if one is already active.
    pub fn launch(&mut self, program: &str, args: &[String]) -> (outcome: Result<
        StopEvent,
        DebugError,
    >)
        ensures
            Self::launches(*old(self), program@, args@, *final(self), outcome),
    {
        if self.state.active_process.is_some() {
            return Err(DebugError::InferiorAlreadyActive);
        }
        let outcome = self.backend.launch(program, args);
        if let Ok(event) = outcome {
            let active_process = self.backend.active_process();
            self.state.on_stop(event, active_process);
        }
        outcome
    }

    /// Attach to an existing process.
    ///
    /// Fails with [`DebugError::InferiorAlreadyActive`] if one is already active.
    pub fn attach(&mut self, pid: ProcessId) -> (outcome: Result<StopEvent, DebugError>)
        ensures
            Self::attaches(*old(self), pid, *final(self), outcome),
    {
        if self.state.active_process.is_some() {
            return Err(DebugError::InferiorAlreadyActive);
        }
        let outcome = self.backend.attach(pid);
        if let Ok(event) = outcome {
            let active_process = self.backend.active_process();
            self.state.on_stop(event, active_process);
        }
        outcome
    }

    /// Resume execution and wait for the next stop event.
    ///
    /// Records stop latency and ptrace roundtrip delta for diagnostics.
    pub fn continue_exec(&mut self) -> (outcome: Result<StopEvent, DebugError>)
        requires
            old(self).accounts().levels.len() < u64::MAX,
        ensures
            Self::continues(*old(self), *final(self), outcome),
    {
        if self.state.active_process.is_none() {
            return Err(DebugError::MissingInferior);
        }
        let ptrace_before = self.backend.ptrace_call_count();
        let started = clock_at(&self.backend);

        match self.backend.resume() {
            Ok(done) => {
                assert(done == ());
                assert(B::resumes(old(self).backend, self.backend, Ok(())));
            },
            Err(error) => return Err(error),
        }
        self.state.run_state = RunState::Running;
        let ghost resumed = self.backend;
        let outcome = self.backend.wait_for_stop();
        let event = match &outcome {
            Ok(event) => *event,
            Err(_) => return outcome,
        };

        let latency = time_until(&started, &self.backend);
        let ptrace_after = self.backend.ptrace_call_count();
        let ptrace_delta = ptrace_after.saturating_sub(ptrace_before);
        self.stop_path_metrics.record(latency, ptrace_delta);

        let active_process = self.backend.active_process();
        self.state.on_stop(event, active_process);

        assert(B::resumes(old(self).driven(), resumed, Ok(())) && B::waits(
            resumed,
            self.driven(),
            outcome,
        ));
        assert(Self::accounted(*old(self), *self, latency, ptrace_before, ptrace_after));
        outcome
    }

    /// Return a copy of the current engine state.
    pub fn state(&self) -> (state: EngineState)
        ensures
            state == self.current(),
    {
        self.state
    }

    /// Return a snapshot of stop-path latency/ptrace metrics.
    pub fn stop_path_snapshot(&self) -> (snapshot: StopPathSnapshot)
        ensures
            self.accounts().shown_by(snapshot),
            snapshot.is_sound(),
    {
        self.stop_path_metrics.snapshot()
    }

    /// Shutdown the active inferior according to policy.
    pub fn shutdown(&mut self, policy: ShutdownPolicy) -> (outcome: Result<(), DebugError>)
        ensures
            Self::shuts_down(*old(self), policy, *final(self), outcome),
    {
        if self.state.active_process.is_none() {
            return Err(DebugError::MissingInferior);
        }
        let outcome = self.backend.shutdown(policy);
        if outcome.is_ok() {
            self.state.active_process = None;
            self.state.run_state = RunState::Idle;
        }
        outcome
    }

    /// Read one register from the active inferior.
    pub fn read_register(&mut self, name: &str) -> (outcome: Result<RegisterValue, DebugError>)
        ensures
            B::reads(old(self).driven(), name@, final(self).driven(), outcome),
            final(self).same_but_backend(*old(self)),
    {
        self.backend.read_register(name)
    }

    /// Write one register on the active inferior.
    pub fn write_register(&mut self, name: &str, value: u64) -> (outcome: Result<
        RegisterValue,
        DebugError,
    >)
        ensures
            B::writes(old(self).driven(), name@, value, final(self).driven(), outcome),
            final(self).same_but_backend(*old(self)),
    {
        self.backend.write_register(name, value)
    }

    /// Read canonical register set from the active inferior.
    pub fn read_all_registers(&mut self) -> (outcome: Result<Vec<RegisterValue>, DebugError>)
        ensures
            B::reads_all(old(self).driven(), final(self).driven(), outcome),
            final(self).same_but_backend(*old(self)),
    {
        self.backend.read_all_registers()
    }

    /// Convenience wrapper for `shutdown(Detach)`.
    pub fn detach(&mut self) -> (outcome: Result<(), DebugError>)
        ensures
            Self::shuts_down(*old(self), ShutdownPolicy::Detach, *final(self), outcome),
    {
        self.shutdown(ShutdownPolicy::Detach)
    }

    /// Convenience wrapper for `shutdown(Terminate)`.
    pub fn terminate(&mut self) -> (outcome: Result<(), DebugError>)
        ensures
            Self::shuts_down(*old(self), ShutdownPolicy::Terminate, *final(self), outcome),
    {
        self.shutdown(ShutdownPolicy::Terminate)
    }
}

/// Every operation keeps the state within the reachable ones.
pub proof fn operations_keep_the_state_reachable<B: DebugBackend>(
    pre: DebugEngine<B>,
    post: DebugEngine<B>,
    program: Seq<char>,
    args: Seq<String>,
    pid: ProcessId,
    policy: ShutdownPolicy,
    stop: Result<StopEvent, DebugError>,
    end: Result<(), DebugError>,
)
    requires
        pre.current().is_reachable(),
        ({
            ||| DebugEngine::launches(pre, program, args, post, stop)
            ||| DebugEngine::attaches(pre, pid, post, stop)
            ||| DebugEngine::continues(pre, post, stop)
            ||| DebugEngine::shuts_down(pre, policy, post, end)
            ||| post.same_but_backend(pre)
        }),
    ensures
        post.current().is_reachable(),
{
}

/// After a shutdown that succeeded there is nothing to continue or to shut down, and the attempt
/// changes nothing.
pub proof fn nothing_is_left_after_a_shutdown<B: DebugBackend>(
    pre: DebugEngine<B>,
    policy: ShutdownPolicy,
    mid: DebugEngine<B>,
    post: DebugEngine<B>,
    again: ShutdownPolicy,
    stop: Result<StopEvent, DebugError>,
    end: Result<(), DebugError>,
)
    requires
        DebugEngine::shuts_down(pre, policy, mid, Ok(())),
    ensures
        DebugEngine::continues(mid, post, stop) ==> stop == Err::<StopEvent, DebugError>(
            DebugError::MissingInferior,
        ) && post == mid,
        DebugEngine::shuts_down(mid, again, post, end) ==> end == Err::<(), DebugError>(
            DebugError::MissingInferior,
        ) && post == mid,
{
}

/// While an inferior is owned, no second one is launched or attached, and the attempt changes
/// nothing; reading and writing registers does not let go of it.
pub proof fn at_most_one_inferior_is_owned<B: DebugBackend>(
    pre: DebugEngine<B>,
    mid: DebugEngine<B>,
    post: DebugEngine<B>,
    program: Seq<char>,
    args: Seq<String>,
    pid: ProcessId,
    stop: Result<StopEvent, DebugError>,
)
    requires
        pre.current().active_process is Some,
        mid.same_but_backend(pre),
        DebugEngine::launches(mid, program, args, post, stop) || DebugEngine::attaches(
            mid,
            pid,
            post,
            stop,
        ),
    ensures
        stop == Err::<StopEvent, DebugError>(DebugError::InferiorAlreadyActive),
        post == mid,
{
}

/// Only a continue that ends with a stop is accounted for, as one sample at most, and nothing is
/// taken out of the accounts.
pub proof fn accounts_only_grow<B: DebugBackend>(
    pre: DebugEngine<B>,
    post: DebugEngine<B>,
    program: Seq<char>,
    args: Seq<String>,
    pid: ProcessId,
    policy: ShutdownPolicy,
    stop: Result<StopEvent, DebugError>,
    end: Result<(), DebugError>,
)
    requires
        ({
            ||| DebugEngine::launches(pre, program, args, post, stop)
            ||| DebugEngine::attaches(pre, pid, post, stop)
            ||| DebugEngine::continues(pre, post, stop)
            ||| DebugEngine::shuts_down(pre, policy, post, end)
            ||| post.same_but_backend(pre)
        }),
    ensures
        pre.accounts().levels.subset_of(post.accounts().levels),
        post.accounts().levels.len() <= pre.accounts().levels.len() + 1,
        pre.accounts().ptrace_calls <= post.accounts().ptrace_calls,
        post.accounts() != pre.accounts() ==> DebugEngine::continues(pre, post, stop) && stop is Ok,
{
    broadcast use vstd::multiset::group_multiset_axioms;

}

/// With a backend whose count of ptrace calls is settled before and after a continue, the stop is
/// accounted for with the difference and no other number. Which latency it has rests on time.
pub proof fn a_stop_costs_the_calls_that_were_counted<B: DebugBackend>(
    pre: DebugEngine<B>,
    post: DebugEngine<B>,
    stop: Result<StopEvent, DebugError>,
    before: u64,
    after: u64,
)
    requires
        pre.current().active_process is Some,
        DebugEngine::continues(pre, post, stop),
        stop is Ok,
        forall|count: u64| #[trigger]
            call_ensures(B::ptrace_call_count, (&pre.driven(),), count) ==> count == before,
        forall|count: u64| #[trigger]
            call_ensures(B::ptrace_call_count, (&post.driven(),), count) ==> count == after,
    ensures
        exists|latency: std::time::Duration| #[trigger]
            measured(latency) && post.accounts() == pre.accounts().with(
                micros_of(latency),
                count_delta(before, after),
            ),
{
}

/// The clock is read while the backend is as it was before the resume, and what has passed since that
/// reading is taken while the backend is as the wait left it. That, and nothing else, is the latency
/// that a continue accounts for.
proof fn the_clock_is_read_before_the_resume_and_after_the_wait<B: DebugBackend>(
    engine: &mut DebugEngine<B>,
    outcome: Result<StopEvent, DebugError>,
)
    requires
        call_ensures(DebugEngine::<B>::continue_exec, (engine,), outcome),
        old(engine).current().active_process is Some,
        outcome is Ok,
    ensures
        exists|
            started: std::time::Instant,
            resumed: B,
            latency: std::time::Duration,
            ptrace_delta: u64,
        |
            {
                &&& #[trigger] call_ensures(clock_at::<B>, (&old(engine).driven(),), started)
                &&& call_ensures(instant_now, (), started)
                &&& #[trigger] B::resumes(old(engine).driven(), resumed, Ok(()))
                &&& B::waits(resumed, final(engine).driven(), outcome)
                &&& #[trigger] call_ensures(
                    time_until::<B>,
                    (&started, &final(engine).driven()),
                    latency,
                )
                &&& call_ensures(elapsed_since, (&started,), latency)
                &&& final(engine).accounts() == #[trigger] old(engine).accounts().with(
                    micros_of(latency),
                    ptrace_delta,
                )
            },
{
    let pre = *old(engine);
    let post = *final(engine);
    let resumed = choose|resumed: B| #[trigger]
        B::resumes(pre.driven(), resumed, Ok(())) && B::waits(resumed, post.driven(), outcome);
    let (latency, before, after) = choose|latency: std::time::Duration, before: u64, after: u64|
        #[trigger] DebugEngine::accounted(pre, post, latency, before, after);
    assert(DebugEngine::accounted(pre, post, latency, before, after));
    let started = choose|started: std::time::Instant| #[trigger]
        call_ensures(clock_at::<B>, (&pre.driven(),), started) && call_ensures(
            time_until::<B>,
            (&started, &post.driven()),
            latency,
        ) && call_ensures(elapsed_since, (&started,), latency);
    assert(call_ensures(clock_at::<B>, (&pre.driven(),), started) && call_ensures(
        time_until::<B>,
        (&started, &post.driven()),
        latency,
    ));
    assert(B::resumes(pre.driven(), resumed, Ok(())));
    assert(post.accounts() == pre.accounts().with(micros_of(latency), count_delta(before, after)));
}

} // verus!
