//! What the engine does with its backend, and what it accounts for.

use crate::domain::{
    DebugBackend, DebugError, ProcessId, RegisterValue, ShutdownPolicy, StopEvent, StopReason,
};
use crate::engine::{DebugEngine, EngineState, RunState};
#[allow(unused_imports)]
use crate::engine::{count_delta, timed};
use crate::metrics::{StopPathMetrics, StopPathSnapshot};
#[allow(unused_imports)]
use crate::metrics::{
    counted_us, is_greatest, is_least, lemma_level, lemma_level_width, level_of, level_top,
    level_width, levels_keep_three_digits, mean_bits_of, micros_of, percentile_of, Accounts,
};
#[allow(unused_imports)]
use vstd::multiset::Multiset;
use vstd::prelude::*;

verus! {

/// A new engine is idle, owns nothing, has seen no stop and has nothing in its accounts.
pub proof fn a_new_engine_has_nothing<B: DebugBackend>(
    backend: B,
    engine: DebugEngine<B>,
    state: EngineState,
)
    requires
        call_ensures(DebugEngine::<B>::new, (backend,), engine),
        call_ensures(DebugEngine::<B>::state, (&engine,), state),
    ensures
        engine.driven() == backend,
        state.run_state == RunState::Idle,
        state.active_process is None,
        state.last_stop is None,
        engine.accounts().levels == Multiset::<u64>::empty(),
        engine.accounts().ptrace_calls == 0,
        state == engine.current(),
{
}

/// A launch hands the program and its arguments to the backend and takes over its stop. Where an
/// inferior is owned it is refused, and nothing is asked or changed.
pub proof fn a_launch_goes_to_the_backend<B: DebugBackend>(
    engine: &mut DebugEngine<B>,
    program: &str,
    args: &[String],
    outcome: Result<StopEvent, DebugError>,
)
    requires
        call_ensures(DebugEngine::<B>::launch, (engine, program, args), outcome),
    ensures
        old(engine).current().active_process is Some ==> {
            &&& outcome == Err::<StopEvent, DebugError>(DebugError::InferiorAlreadyActive)
            &&& *final(engine) == *old(engine)
        },
        old(engine).current().active_process is None ==> B::launches(
            old(engine).driven(),
            program@,
            args@,
            final(engine).driven(),
            outcome,
        ),
        final(engine).accounts() == old(engine).accounts(),
        outcome is Err ==> final(engine).current() == old(engine).current(),
        outcome matches Ok(event) ==> {
            &&& final(engine).current().last_stop == Some(event)
            &&& final(engine).driven().reports(final(engine).current().active_process)
            &&& final(engine).current().run_state == match event.reason {
                StopReason::Exited { .. } => RunState::Exited,
                StopReason::Terminated { .. } => RunState::Exited,
                StopReason::Signal { .. } => RunState::Stopped,
                StopReason::PtraceEvent { .. } => RunState::Stopped,
                StopReason::SyscallTrap => RunState::Stopped,
                StopReason::Unknown => RunState::Stopped,
            }
        },
{
}

/// An attach hands the process to the backend and takes over its stop. Where an inferior is owned it
/// is refused, and nothing is asked or changed.
pub proof fn an_attach_goes_to_the_backend<B: DebugBackend>(
    engine: &mut DebugEngine<B>,
    pid: ProcessId,
    outcome: Result<StopEvent, DebugError>,
)
    requires
        call_ensures(DebugEngine::<B>::attach, (engine, pid), outcome),
    ensures
        old(engine).current().active_process is Some ==> {
            &&& outcome == Err::<StopEvent, DebugError>(DebugError::InferiorAlreadyActive)
            &&& *final(engine) == *old(engine)
        },
        old(engine).current().active_process is None ==> B::attaches(
            old(engine).driven(),
            pid,
            final(engine).driven(),
            outcome,
        ),
        final(engine).accounts() == old(engine).accounts(),
        outcome is Err ==> final(engine).current() == old(engine).current(),
        outcome matches Ok(event) ==> {
            &&& final(engine).current().last_stop == Some(event)
            &&& final(engine).driven().reports(final(engine).current().active_process)
            &&& final(engine).current().run_state == match event.reason {
                StopReason::Exited { .. } => RunState::Exited,
                StopReason::Terminated { .. } => RunState::Exited,
                StopReason::Signal { .. } => RunState::Stopped,
                StopReason::PtraceEvent { .. } => RunState::Stopped,
                StopReason::SyscallTrap => RunState::Stopped,
                StopReason::Unknown => RunState::Stopped,
            }
        },
{
}

/// A continue resumes the backend and then waits for it, and takes over the stop. A resume that fails
/// leaves the state as it was; a wait that fails leaves the engine running. Without an inferior it is
/// refused, and nothing is asked or changed.
pub proof fn a_continue_resumes_and_then_waits<B: DebugBackend>(
    engine: &mut DebugEngine<B>,
    outcome: Result<StopEvent, DebugError>,
)
    requires
        call_ensures(DebugEngine::<B>::continue_exec, (engine,), outcome),
    ensures
        old(engine).current().active_process is None ==> {
            &&& outcome == Err::<StopEvent, DebugError>(DebugError::MissingInferior)
            &&& *final(engine) == *old(engine)
        },
        old(engine).current().active_process is Some ==> {
            ||| exists|resumed: B| #[trigger]
                B::resumes(old(engine).driven(), resumed, Ok(())) && B::waits(
                    resumed,
                    final(engine).driven(),
                    outcome,
                )
            ||| outcome is Err && B::resumes(
                old(engine).driven(),
                final(engine).driven(),
                Err(outcome->Err_0),
            ) && final(engine).current() == old(engine).current()
        },
        outcome is Err ==> {
            &&& final(engine).accounts() == old(engine).accounts()
            &&& final(engine).current().active_process == old(engine).current().active_process
            &&& final(engine).current().last_stop == old(engine).current().last_stop
            &&& final(engine).current().run_state == old(engine).current().run_state || final(engine).current().run_state == RunState::Running
        },
        outcome matches Ok(event) ==> {
            &&& final(engine).current().last_stop == Some(event)
            &&& final(engine).driven().reports(final(engine).current().active_process)
            &&& final(engine).current().run_state == match event.reason {
                StopReason::Exited { .. } => RunState::Exited,
                StopReason::Terminated { .. } => RunState::Exited,
                StopReason::Signal { .. } => RunState::Stopped,
                StopReason::PtraceEvent { .. } => RunState::Stopped,
                StopReason::SyscallTrap => RunState::Stopped,
                StopReason::Unknown => RunState::Stopped,
            }
        },
{
}

/// The latency that a continue accounts for covers the resume and the wait. With a clock whose
/// reading is part of the state of the backend, and measurements that show at least what it has
/// advanced between the two states in which they were begun and ended, the latency is at least the
/// time that passed in the resume and the time that passed in the wait together.
pub proof fn the_latency_covers_the_resume_and_the_wait<B: DebugBackend>(
    engine: &mut DebugEngine<B>,
    outcome: Result<StopEvent, DebugError>,
    clock: spec_fn(B) -> int,
)
    requires
        call_ensures(DebugEngine::<B>::continue_exec, (engine,), outcome),
        old(engine).current().active_process is Some,
        outcome is Ok,
        forall|from: B, to: B, latency: std::time::Duration| #[trigger]
            timed(from, to, latency) ==> micros_of(latency) >= clock(to) - clock(from),
    ensures
        exists|resumed: B, latency_us: u128, ptrace_delta: u64|
            {
                &&& #[trigger] B::resumes(old(engine).driven(), resumed, Ok(()))
                &&& B::waits(resumed, final(engine).driven(), outcome)
                &&& final(engine).accounts() == #[trigger] old(engine).accounts().with(
                    latency_us,
                    ptrace_delta,
                )
                &&& latency_us >= (clock(resumed) - clock(old(engine).driven())) + (clock(
                    final(engine).driven(),
                ) - clock(resumed))
            },
{
    let pre = *old(engine);
    let post = *final(engine);
    let resumed = choose|resumed: B| #[trigger]
        B::resumes(pre.driven(), resumed, Ok(())) && B::waits(resumed, post.driven(), outcome);
    let (latency, before, after) = choose|latency: std::time::Duration, before: u64, after: u64|
        #[trigger] DebugEngine::accounted(pre, post, latency, before, after);
    assert(DebugEngine::accounted(pre, post, latency, before, after));
    assert(timed(pre.driven(), post.driven(), latency));
    assert(B::resumes(pre.driven(), resumed, Ok(())));
    assert(post.accounts() == pre.accounts().with(micros_of(latency), count_delta(before, after)));
}

/// A stop costs what the backend counted between before its resume and after its wait, and nothing
/// where the count did not go up.
pub proof fn a_stop_costs_the_difference_of_the_counts<B: DebugBackend>(
    engine: &mut DebugEngine<B>,
    outcome: Result<StopEvent, DebugError>,
    before: u64,
    after: u64,
)
    requires
        call_ensures(DebugEngine::<B>::continue_exec, (engine,), outcome),
        old(engine).current().active_process is Some,
        outcome is Ok,
        forall|count: u64| #[trigger]
            call_ensures(B::ptrace_call_count, (&old(engine).driven(),), count) ==> count == before,
        forall|count: u64| #[trigger]
            call_ensures(B::ptrace_call_count, (&final(engine).driven(),), count) ==> count == after,
    ensures
        exists|latency_us: u128, cost: u64|
            {
                &&& final(engine).accounts() == #[trigger] old(engine).accounts().with(
                    latency_us,
                    cost,
                )
                &&& before <= after ==> cost == after - before
                &&& before > after ==> cost == 0
            },
{
    let pre = *old(engine);
    let post = *final(engine);
    let (latency, b, a) = choose|latency: std::time::Duration, b: u64, a: u64| #[trigger]
        DebugEngine::accounted(pre, post, latency, b, a);
    assert(DebugEngine::accounted(pre, post, latency, b, a));
    assert(post.accounts() == pre.accounts().with(micros_of(latency), count_delta(b, a)));
}

/// A shutdown hands its policy to the backend: `detach` detaches and `terminate` terminates. Where it
/// succeeds the engine is idle and owns nothing, and where it fails the state stays as it was. The
/// last stop and the accounts are kept. Without an inferior it is refused, and nothing is asked or
/// changed.
pub proof fn a_shutdown_goes_to_the_backend<B: DebugBackend>(
    engine: &mut DebugEngine<B>,
    policy: ShutdownPolicy,
    outcome: Result<(), DebugError>,
)
    requires
        ({
            ||| call_ensures(DebugEngine::<B>::shutdown, (engine, policy), outcome)
            ||| policy is Detach && call_ensures(DebugEngine::<B>::detach, (engine,), outcome)
            ||| policy is Terminate && call_ensures(DebugEngine::<B>::terminate, (engine,), outcome)
        }),
    ensures
        old(engine).current().active_process is None ==> {
            &&& outcome == Err::<(), DebugError>(DebugError::MissingInferior)
            &&& *final(engine) == *old(engine)
        },
        old(engine).current().active_process is Some ==> B::shuts_down(
            old(engine).driven(),
            policy,
            final(engine).driven(),
            outcome,
        ),
        final(engine).accounts() == old(engine).accounts(),
        final(engine).current().last_stop == old(engine).current().last_stop,
        outcome is Err ==> final(engine).current() == old(engine).current(),
        outcome is Ok ==> {
            &&& final(engine).current().active_process is None
            &&& final(engine).current().run_state == RunState::Idle
        },
{
}

/// Registers are read and written by the backend under the name and with the value given, and
/// nothing else changes.
pub proof fn registers_go_to_the_backend<B: DebugBackend>(
    engine: &mut DebugEngine<B>,
    name: &str,
    value: u64,
    one: Result<RegisterValue, DebugError>,
    all: Result<Vec<RegisterValue>, DebugError>,
)
    ensures
        call_ensures(DebugEngine::<B>::read_register, (engine, name), one) ==> {
            &&& B::reads(old(engine).driven(), name@, final(engine).driven(), one)
            &&& final(engine).current() == old(engine).current()
            &&& final(engine).accounts() == old(engine).accounts()
        },
        call_ensures(DebugEngine::<B>::write_register, (engine, name, value), one) ==> {
            &&& B::writes(old(engine).driven(), name@, value, final(engine).driven(), one)
            &&& final(engine).current() == old(engine).current()
            &&& final(engine).accounts() == old(engine).accounts()
        },
        call_ensures(DebugEngine::<B>::read_all_registers, (engine,), all) ==> {
            &&& B::reads_all(old(engine).driven(), final(engine).driven(), all)
            &&& final(engine).current() == old(engine).current()
            &&& final(engine).accounts() == old(engine).accounts()
        },
{
}

/// A stop is taken over into the state: the run state goes by the reason, and the event and the
/// process are kept.
pub proof fn a_stop_is_taken_over(
    state: &mut EngineState,
    event: StopEvent,
    active_process: Option<ProcessId>,
)
    requires
        call_ensures(EngineState::on_stop, (state, event, active_process), ()),
    ensures
        final(state).active_process == active_process,
        final(state).last_stop == Some(event),
        final(state).run_state == match event.reason {
            StopReason::Exited { .. } => RunState::Exited,
            StopReason::Terminated { .. } => RunState::Exited,
            StopReason::Signal { .. } => RunState::Stopped,
            StopReason::PtraceEvent { .. } => RunState::Stopped,
            StopReason::SyscallTrap => RunState::Stopped,
            StopReason::Unknown => RunState::Stopped,
        },
{
}

/// The snapshot of an engine shows the accounts of that engine.
pub proof fn the_snapshot_of_an_engine_shows_its_accounts<B: DebugBackend>(
    engine: DebugEngine<B>,
    snapshot: StopPathSnapshot,
)
    requires
        call_ensures(DebugEngine::<B>::stop_path_snapshot, (&engine,), snapshot),
    ensures
        snapshot.samples == engine.accounts().levels.len(),
        snapshot.total_ptrace_calls == engine.accounts().ptrace_calls,
        engine.accounts().shown_by(snapshot),
{
}

/// To record a duration is to record its whole microseconds.
pub proof fn a_duration_is_recorded_in_microseconds(
    one: &mut StopPathMetrics,
    two: &mut StopPathMetrics,
    latency: std::time::Duration,
    ptrace_delta: u64,
)
    requires
        call_ensures(StopPathMetrics::record, (one, latency, ptrace_delta), ()),
        call_ensures(
            StopPathMetrics::record_micros,
            (two, micros_of(latency), ptrace_delta),
            (),
        ),
        old(one)@ == old(two)@,
    ensures
        final(one)@ == final(two)@,
{
}

/// Recording a latency below `2^26` microseconds adds one sample and its ptrace calls, and the
/// latency, or a microsecond where it is shorter, to what the minimum and the maximum are taken of.
/// Both are exact below `2048` microseconds and off by a thousandth of the latency at most above.
pub proof fn a_recorded_latency_shows_in_the_snapshot(
    metrics: &mut StopPathMetrics,
    latency_us: u128,
    ptrace_delta: u64,
    before: StopPathSnapshot,
    after: StopPathSnapshot,
)
    requires
        call_ensures(StopPathMetrics::snapshot, (&*old(metrics),), before),
        call_ensures(StopPathMetrics::record_micros, (metrics, latency_us, ptrace_delta), ()),
        call_ensures(StopPathMetrics::snapshot, (&*final(metrics),), after),
        latency_us < 0x400_0000,
    ensures
        ({
            let counted: int = if latency_us == 0 {
                1
            } else {
                latency_us as int
            };
            &&& after.samples == before.samples + 1
            &&& before.total_ptrace_calls + ptrace_delta <= u64::MAX ==> after.total_ptrace_calls
                == before.total_ptrace_calls + ptrace_delta
            &&& before.total_ptrace_calls + ptrace_delta > u64::MAX ==> after.total_ptrace_calls
                == u64::MAX
            &&& after.min_us <= counted <= after.max_us
            &&& before.samples > 0 ==> after.min_us <= before.min_us && before.max_us
                <= after.max_us
            &&& after.min_us == before.min_us || 1000 * (counted - after.min_us) <= counted
            &&& after.max_us == before.max_us || 1000 * (after.max_us - counted) <= counted
            &&& counted < 2048 ==> (after.min_us == before.min_us || after.min_us == counted) && (
            after.max_us == before.max_us || after.max_us == counted)
            &&& before.samples == 0 ==> 1000 * (counted - after.min_us) <= counted && 1000 * (
            after.max_us - counted) <= counted
        }),
{
    broadcast use vstd::multiset::group_multiset_axioms;

    let counted: u64 = if latency_us == 0 {
        1
    } else {
        latency_us as u64
    };
    let level = level_of(counted);
    let old_levels = old(metrics)@.levels;
    let new_levels = final(metrics)@.levels;
    levels_keep_three_digits(counted);
    assert(counted_us(latency_us) == counted);
    assert(new_levels == old_levels.insert(level));
    assert(new_levels.contains(level));
    assert(new_levels.contains(after.min_us));
    let high = choose|high: u64| #[trigger]
        is_greatest(new_levels, high) && after.max_us == level_top(high);
    assert(is_greatest(new_levels, high) && after.max_us == level_top(high));
    lemma_level_width(level as nat, high as nat);
    if after.min_us != level {
        assert(old_levels.contains(after.min_us));
    }
    if high != level {
        assert(old_levels.contains(high));
    }
    if old_levels.len() > 0 {
        let old_high = choose|old_high: u64| #[trigger]
            is_greatest(old_levels, old_high) && before.max_us == level_top(old_high);
        assert(is_greatest(old_levels, old_high) && before.max_us == level_top(old_high));
        assert(new_levels.contains(old_high));
        assert(new_levels.contains(before.min_us));
        lemma_level_width(old_high as nat, high as nat);
        if after.min_us != level {
            assert(old_levels.contains(after.min_us));
            assert(before.min_us <= after.min_us);
        }
        if high != level {
            assert(high <= old_high);
        }
    } else {
        assert(old_levels =~= Multiset::<u64>::empty());
    }
}

/// A latency from `2^26` microseconds on is not counted: the snapshot stays as it was.
pub proof fn a_latency_out_of_range_changes_nothing(
    metrics: &mut StopPathMetrics,
    latency_us: u128,
    ptrace_delta: u64,
)
    requires
        call_ensures(StopPathMetrics::record_micros, (metrics, latency_us, ptrace_delta), ()),
        latency_us >= 0x400_0000,
    ensures
        final(metrics)@ == old(metrics)@,
{
}

/// The order in which two latencies are recorded does not matter.
pub proof fn the_order_of_records_does_not_matter(
    accounts: Accounts,
    one: u128,
    one_delta: u64,
    two: u128,
    two_delta: u64,
)
    ensures
        accounts.with(one, one_delta).with(two, two_delta) == accounts.with(two, two_delta).with(
            one,
            one_delta,
        ),
{
    broadcast use vstd::multiset::group_multiset_axioms;

    let a = accounts.with(one, one_delta).with(two, two_delta);
    let b = accounts.with(two, two_delta).with(one, one_delta);
    assert(a.levels =~= b.levels);
}

/// A percentile of the snapshot is a latency that at least that part of the recorded ones do not
/// exceed, and that no larger part lies below.
pub proof fn percentiles_split_the_samples(metrics: StopPathMetrics, snapshot: StopPathSnapshot)
    requires
        call_ensures(StopPathMetrics::snapshot, (&metrics,), snapshot),
        0 < snapshot.samples <= 0x1_0000_0000,
    ensures
        100 * metrics@.levels.filter(|level: u64| level <= snapshot.p50_us).len() >= 50
            * snapshot.samples,
        100 * metrics@.levels.filter(|level: u64| level <= snapshot.p95_us).len() >= 95
            * snapshot.samples,
        100 * metrics@.levels.filter(|level: u64| level <= snapshot.p99_us).len() >= 99
            * snapshot.samples,
        100 * metrics@.levels.filter(|level: u64| level_top(level) < snapshot.p50_us).len() <= 50
            * snapshot.samples,
        100 * metrics@.levels.filter(|level: u64| level_top(level) < snapshot.p95_us).len() <= 95
            * snapshot.samples,
        100 * metrics@.levels.filter(|level: u64| level_top(level) < snapshot.p99_us).len() <= 99
            * snapshot.samples,
{
}

/// A snapshot without samples is zero throughout. One with samples has the least level and the top
/// of the greatest one for its ends, its percentiles in order between them, and the mean of its
/// levels.
pub proof fn a_snapshot_spans_the_samples(
    metrics: StopPathMetrics,
    snapshot: StopPathSnapshot,
    level: u64,
)
    requires
        call_ensures(StopPathMetrics::snapshot, (&metrics,), snapshot),
    ensures
        snapshot.samples == metrics@.levels.len(),
        snapshot.total_ptrace_calls == metrics@.ptrace_calls,
        snapshot.samples == 0 ==> {
            &&& snapshot.min_us == 0
            &&& snapshot.p50_us == 0
            &&& snapshot.p95_us == 0
            &&& snapshot.p99_us == 0
            &&& snapshot.max_us == 0
            &&& snapshot.mean_us_bits == 0
            &&& snapshot.total_ptrace_calls == 0
        },
        snapshot.samples > 0 ==> {
            &&& snapshot.min_us >= 1
            &&& metrics@.levels.contains(snapshot.min_us)
            &&& snapshot.mean_us_bits == mean_bits_of(metrics@.levels)
            &&& snapshot.p50_us == percentile_of(metrics@.levels, 50)
            &&& snapshot.p95_us == percentile_of(metrics@.levels, 95)
            &&& snapshot.p99_us == percentile_of(metrics@.levels, 99)
        },
        metrics@.levels.contains(level) ==> snapshot.min_us <= level <= snapshot.max_us,
        snapshot.min_us <= snapshot.p50_us <= snapshot.p95_us <= snapshot.p99_us <= snapshot.max_us,
        snapshot.mean_us_bits < 0x7FF0_0000_0000_0000,
{
    broadcast use vstd::multiset::group_multiset_axioms;

    let levels = metrics@.levels;
    if levels.len() > 0 {
        let high = choose|high: u64| #[trigger]
            is_greatest(levels, high) && snapshot.max_us == level_top(high);
        assert(is_greatest(levels, high) && snapshot.max_us == level_top(high));
        lemma_level_width(0, high as nat);
        assert(levels.contains(high));
    } else {
        assert(levels =~= Multiset::<u64>::empty());
    }
}

} // verus!
