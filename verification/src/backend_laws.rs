//! What the Linux backend does, call by call and answer by answer.

use crate::domain::{
    DebugError, ProcessId, RegisterValue, ShutdownPolicy, StopEvent, StopReason,
};
use crate::linux::{
    errno_error, exec_report, traceme_report, AfterRegs, AfterRequest, AfterWait, LinuxBackend,
    Reply, Request, Spawned, Step, WaitStatus,
};
#[allow(unused_imports)]
use crate::linux::{
    argv_of, errno_text_of, first_nul_at, is_nul_free, lossy_text_of, InferiorOwnership,
};
use crate::registers::UserRegs;
#[allow(unused_imports)]
use crate::registers::{read_gives, shows_all, write_gives};
#[allow(unused_imports)]
use crate::text::digits;
use vstd::prelude::*;
#[allow(unused_imports)]
use vstd::utf8::{encode_utf8, encode_utf8_decode_utf8, encode_utf8_valid_utf8};

verus! {

/// Where the argument vector of a launch is built, it is the program and then each argument, in the
/// order given, as UTF-8. No argument is left out or added.
pub proof fn arguments_are_handed_on_in_order(
    program: &str,
    args: &[String],
    outcome: Result<Vec<Vec<u8>>, DebugError>,
)
    requires
        call_ensures(LinuxBackend::build_argv, (program, args), outcome),
        outcome is Ok,
    ensures
        ({
            let argv = outcome->Ok_0;
            &&& argv@.len() == args@.len() + 1
            &&& argv@[0]@ == encode_utf8(program@)
            &&& forall|k: int|
                0 <= k < args@.len() ==> argv@[k + 1]@ == encode_utf8((#[trigger] args@[k])@)
            &&& forall|k: int, i: int|
                0 <= k < argv@.len() && 0 <= i < argv@[k]@.len() ==> #[trigger] argv@[k]@[i] != 0
        }),
{
    let argv = outcome->Ok_0;
    let texts = argv_of(program@, args@);
    assert(argv@[0]@ == texts[0]);
    assert forall|k: int| 0 <= k < args@.len() implies argv@[k + 1]@ == encode_utf8(
        (#[trigger] args@[k])@,
    ) by {
        assert(argv@[k + 1]@ == texts[k + 1]);
    }
}

/// A launch of a backend that owns nothing spawns the program with its arguments in the order
/// given, and one of a backend that owns an inferior is refused.
pub proof fn a_launch_spawns_the_program_with_its_arguments(
    backend: &LinuxBackend,
    program: &str,
    args: &[String],
    step: Step,
)
    requires
        call_ensures(LinuxBackend::launch, (backend, program, args), step),
    ensures
        backend@.inferior is Some ==> step == Step::Done(
            Reply::Stop(Err(DebugError::InferiorAlreadyActive)),
        ),
        step matches Step::Spawn { argv } ==> {
            &&& backend@.inferior is None
            &&& argv@.len() == args@.len() + 1
            &&& argv@[0]@ == encode_utf8(program@)
            &&& forall|k: int|
                0 <= k < args@.len() ==> argv@[k + 1]@ == encode_utf8((#[trigger] args@[k])@)
        },
        backend@.inferior is None && (forall|i: int|
            0 <= i < encode_utf8(program@).len() ==> #[trigger] encode_utf8(program@)[i] != 0) && (
        forall|k: int, i: int|
            0 <= k < args@.len() && 0 <= i < encode_utf8(args@[k]@).len() ==> #[trigger] encode_utf8(
                args@[k]@,
            )[i] != 0) ==> step is Spawn,
{
    let texts = argv_of(program@, args@);
    assert(texts[0] == encode_utf8(program@));
    assert forall|k: int| 0 <= k < args@.len() implies #[trigger] texts[k + 1] == encode_utf8(
        args@[k]@,
    ) by {}
    if let Step::Spawn { argv } = step {
        assert(argv@[0]@ == texts[0]);
        assert forall|k: int| 0 <= k < args@.len() implies argv@[k + 1]@ == encode_utf8(
            (#[trigger] args@[k])@,
        ) by {
            assert(argv@[k + 1]@ == texts[k + 1]);
        }
    } else if backend@.inferior is None {
        let (i, position) = choose|i: int, position: int|
            0 <= i < texts.len() && #[trigger] first_nul_at(texts[i], position);
        assert(texts[i][position] == 0);
        if i > 0 {
            assert(texts[(i - 1) + 1] == encode_utf8(args@[i - 1]@));
        }
    }
}

/// A zero byte in what is launched is refused with the place of the first one in the program or,
/// where that is free of them, in the first argument that is not.
pub proof fn a_zero_byte_is_refused_with_its_place(
    backend: &LinuxBackend,
    program: &str,
    args: &[String],
    step: Step,
    k: int,
    found: Seq<u8>,
    place: int,
)
    requires
        call_ensures(LinuxBackend::launch, (backend, program, args), step),
        backend@.inferior is None,
        0 <= k <= args@.len(),
        k == 0 ==> found == encode_utf8(program@),
        k > 0 ==> found == encode_utf8(args@[k - 1]@),
        0 <= place < found.len(),
        found[place] == 0,
        forall|i: int| 0 <= i < place ==> #[trigger] found[i] != 0,
        k > 0 ==> forall|i: int|
            0 <= i < encode_utf8(program@).len() ==> #[trigger] encode_utf8(program@)[i] != 0,
        forall|j: int, i: int|
            0 <= j < k - 1 && 0 <= i < encode_utf8(args@[j]@).len() ==> #[trigger] encode_utf8(
                args@[j]@,
            )[i] != 0,
    ensures
        step matches Step::Done(Reply::Stop(Err(DebugError::Backend(cause)))) && cause@
            == "nul byte found in provided data at position: "@ + digits(place as nat, 10),
{
    let texts = argv_of(program@, args@);
    assert(texts[0] == encode_utf8(program@));
    assert forall|j: int| 0 <= j < args@.len() implies #[trigger] texts[j + 1] == encode_utf8(
        args@[j]@,
    ) by {}
    assert(k > 0 ==> texts[(k - 1) + 1] == encode_utf8(args@[k - 1]@));
    assert(texts.len() == args@.len() + 1);
    assert(texts[k] == found);
    assert(found[place] == 0);
    if let Step::Spawn { argv } = step {
        assert(argv@.len() == texts.len());
        assert(argv@[k]@ == texts[k]);
        assert(false);
    }
    let error = step->Done_0->Stop_0->Err_0;
    let (i, position) = choose|i: int, position: int|
        {
            &&& 0 <= i < texts.len()
            &&& forall|j: int| 0 <= j < i ==> is_nul_free(#[trigger] texts[j])
            &&& #[trigger] first_nul_at(texts[i], position)
            &&& error matches DebugError::Backend(cause) && cause@
                == "nul byte found in provided data at position: "@ + crate::text::decimal(position)
        };
    assert(texts[i][position] == 0);
    if i < k {
        if i > 0 {
            assert(texts[(i - 1) + 1] == encode_utf8(args@[i - 1]@));
        }
        assert(false);
    }
    if i > k {
        assert(is_nul_free(texts[k]));
        assert(false);
    }
    if position < place {
        assert(found[position] != 0);
    }
    if place < position {
        assert(found[place] != 0);
    }
}

/// What a spawn leads to: its error number becomes the error, the report of the child becomes the
/// error, and a child without one is owned and waited for.
pub proof fn a_spawned_process_is_owned_and_waited_for(
    backend: &mut LinuxBackend,
    outcome: Result<Spawned, i32>,
    step: Step,
)
    requires
        call_ensures(LinuxBackend::after_spawn, (backend, outcome), step),
    ensures
        final(backend)@.ptrace_calls == old(backend)@.ptrace_calls,
        match outcome {
            Err(errno) => {
                &&& final(backend)@ == old(backend)@
                &&& step matches Step::Done(Reply::Stop(Err(DebugError::Backend(cause)))) && cause@
                    == errno_text_of(errno)
            },
            Ok(child) => {
                &&& child.report@.len() == 0 ==> {
                    &&& final(backend)@.inferior == Some(child.pid)
                    &&& final(backend)@.ownership == Some(InferiorOwnership::Launched)
                    &&& step == (Step::Wait { pid: child.pid, until: AfterWait::FirstStop })
                }
                &&& child.report@.len() > 0 ==> {
                    &&& final(backend)@ == old(backend)@
                    &&& step matches Step::Done(Reply::Stop(Err(DebugError::Backend(cause))))
                        && cause@ == "child failed before exec: "@ + lossy_text_of(child.report@)
                }
                &&& forall|text: Seq<char>|
                    text.len() > 0 && child.report@ == #[trigger] encode_utf8(text) ==> (
                    step matches Step::Done(Reply::Stop(Err(DebugError::Backend(cause)))) && cause@
                        == "child failed before exec: "@ + text)
            },
        },
{
    if let Ok(child) = outcome {
        assert forall|text: Seq<char>|
            text.len() > 0 && child.report@ == #[trigger] encode_utf8(text) implies (
        step matches Step::Done(Reply::Stop(Err(DebugError::Backend(cause)))) && cause@
            == "child failed before exec: "@ + text) by {
            encode_utf8_valid_utf8(text);
            encode_utf8_decode_utf8(text);
        }
    }
}

/// An attach asks for the process that it is given, and for no other.
pub proof fn an_attach_asks_for_its_process(backend: &LinuxBackend, pid: ProcessId, step: Step)
    requires
        call_ensures(LinuxBackend::attach, (backend, pid), step),
    ensures
        backend@.inferior is Some ==> step == Step::Done(
            Reply::Stop(Err(DebugError::InferiorAlreadyActive)),
        ),
        backend@.inferior is None ==> step == (Step::Ask {
            request: Request::Attach { pid: pid@ as i32 },
            then: AfterRequest::Attached { pid: pid@ as i32 },
        }),
{
}

/// What an answered attach leads to.
pub proof fn an_attached_process_is_owned_and_waited_for(
    backend: &mut LinuxBackend,
    pid: i32,
    outcome: Result<(), i32>,
    step: Step,
)
    requires
        call_ensures(
            LinuxBackend::after_request,
            (backend, AfterRequest::Attached { pid }, outcome),
            step,
        ),
    ensures
        outcome is Ok ==> {
            &&& final(backend)@.inferior == Some(pid)
            &&& final(backend)@.ownership == Some(InferiorOwnership::Attached)
            &&& step == (Step::Wait { pid, until: AfterWait::FirstStop })
            &&& old(backend)@.ptrace_calls < u64::MAX ==> final(backend)@.ptrace_calls == old(backend)@.ptrace_calls + 1
        },
        outcome matches Err(errno) ==> {
            &&& final(backend)@ == old(backend)@
            &&& step matches Step::Done(Reply::Stop(Err(DebugError::Backend(cause)))) && cause@
                == errno_text_of(errno)
        },
{
}

/// What the answers to the other requests lead to, but for those of a shutdown: the request counts
/// where it succeeded, its error number becomes the error, and what is owned stays as it is.
pub proof fn an_answered_request_ends_its_operation(
    backend: &mut LinuxBackend,
    then: AfterRequest,
    outcome: Result<(), i32>,
    step: Step,
)
    requires
        call_ensures(LinuxBackend::after_request, (backend, then, outcome), step),
        then is Configured || then is Resumed || then is Written,
    ensures
        final(backend)@.inferior == old(backend)@.inferior,
        final(backend)@.ownership == old(backend)@.ownership,
        outcome is Err ==> final(backend)@.ptrace_calls == old(backend)@.ptrace_calls,
        outcome is Ok && old(backend)@.ptrace_calls < u64::MAX ==> final(backend)@.ptrace_calls
            == old(backend)@.ptrace_calls + 1,
        outcome is Ok && old(backend)@.ptrace_calls == u64::MAX ==> final(backend)@.ptrace_calls
            == u64::MAX,
        outcome is Ok ==> match then {
            AfterRequest::Configured { event } => step == Step::Done(Reply::Stop(Ok(event))),
            AfterRequest::Written { updated } => step == Step::Done(Reply::Register(Ok(updated))),
            _ => step matches Step::Done(Reply::Unit(Ok(_))),
        },
        outcome matches Err(errno) ==> match then {
            AfterRequest::Configured { .. } => step matches Step::Done(
                Reply::Stop(Err(DebugError::Backend(cause))),
            ) && cause@ == errno_text_of(errno),
            AfterRequest::Written { .. } => step matches Step::Done(
                Reply::Register(Err(DebugError::Backend(cause))),
            ) && cause@ == errno_text_of(errno),
            _ => step matches Step::Done(Reply::Unit(Err(DebugError::Backend(cause)))) && cause@
                == errno_text_of(errno),
        },
{
}

/// An answered detach: the inferior is let go where it succeeded and where the process is gone
/// (`ESRCH`) or not traced (`EINVAL`). Any other error number is an error, and the inferior is kept.
pub proof fn an_answered_detach_lets_go(
    backend: &mut LinuxBackend,
    outcome: Result<(), i32>,
    step: Step,
)
    requires
        call_ensures(
            LinuxBackend::after_request,
            (backend, AfterRequest::Detached, outcome),
            step,
        ),
    ensures
        outcome is Ok || outcome == Err::<(), i32>(3) || outcome == Err::<(), i32>(22) ==> {
            &&& final(backend)@.inferior is None
            &&& final(backend)@.ownership is None
            &&& step matches Step::Done(Reply::Unit(Ok(_)))
            &&& old(backend)@.ptrace_calls < u64::MAX ==> final(backend)@.ptrace_calls == old(backend)@.ptrace_calls + 1
        },
        outcome matches Err(errno) ==> (errno != 3 && errno != 22 ==> {
            &&& final(backend)@ == old(backend)@
            &&& step matches Step::Done(Reply::Unit(Err(DebugError::Backend(cause)))) && cause@
                == errno_text_of(errno)
        }),
{
}

/// An answered kill: the end of the process is waited for where it succeeded and where the process
/// is gone (`ESRCH`). Any other error number is an error. The inferior is kept, and nothing counted.
pub proof fn an_answered_kill_waits_for_the_end(
    backend: &mut LinuxBackend,
    pid: i32,
    outcome: Result<(), i32>,
    step: Step,
)
    requires
        call_ensures(
            LinuxBackend::after_request,
            (backend, AfterRequest::Killed { pid }, outcome),
            step,
        ),
    ensures
        final(backend)@ == old(backend)@,
        outcome is Ok || outcome == Err::<(), i32>(3) ==> step == (Step::Wait {
            pid,
            until: AfterWait::Reaped,
        }),
        outcome matches Err(errno) ==> (errno != 3 ==> (step matches Step::Done(
            Reply::Unit(Err(DebugError::Backend(cause))),
        ) && cause@ == errno_text_of(errno))),
{
}

/// A killed process that was waited for is let go, however it ended, and where there was nothing to
/// wait for (`ECHILD`). Any other error number is an error, and the inferior is kept.
pub proof fn a_reaped_process_is_let_go(
    backend: &mut LinuxBackend,
    pid: i32,
    outcome: Result<WaitStatus, i32>,
    step: Step,
)
    requires
        call_ensures(
            LinuxBackend::after_wait,
            (backend, pid, AfterWait::Reaped, outcome),
            step,
        ),
    ensures
        final(backend)@.ptrace_calls == old(backend)@.ptrace_calls,
        outcome is Ok || outcome == Err::<WaitStatus, i32>(10) ==> {
            &&& final(backend)@.inferior is None
            &&& final(backend)@.ownership is None
            &&& step matches Step::Done(Reply::Unit(Ok(_)))
        },
        outcome matches Err(errno) ==> (errno != 10 ==> {
            &&& final(backend)@ == old(backend)@
            &&& step matches Step::Done(Reply::Unit(Err(DebugError::Backend(cause)))) && cause@
                == errno_text_of(errno)
        }),
{
}

/// Each status of a process is the stop that it is, of the thread that it is of.
pub proof fn every_status_is_its_stop(
    status: WaitStatus,
    outcome: Result<StopEvent, DebugError>,
)
    requires
        call_ensures(LinuxBackend::next_stop_event, (status,), outcome),
    ensures
        status matches WaitStatus::Stopped { pid, signal } ==> (pid > 0 ==> (outcome matches Ok(
            event,
        ) && event.tid@ == pid && event.reason == (StopReason::Signal { signal }))),
        status matches WaitStatus::PtraceEvent { pid, signal, event: code } ==> (pid > 0 ==> (
        outcome matches Ok(event) && event.tid@ == pid && event.reason == (
        StopReason::PtraceEvent { event: code, signal }))),
        status matches WaitStatus::PtraceSyscall { pid } ==> (pid > 0 ==> (outcome matches Ok(event)
            && event.tid@ == pid && event.reason == StopReason::SyscallTrap)),
        status matches WaitStatus::Exited { pid, code } ==> (pid > 0 ==> (outcome matches Ok(event)
            && event.tid@ == pid && event.reason == (StopReason::Exited { code }))),
        status matches WaitStatus::Signaled { pid, signal, core_dumped } ==> (pid > 0 ==> (
        outcome matches Ok(event) && event.tid@ == pid && event.reason == (StopReason::Terminated {
            signal,
            core_dumped,
        }))),
        status matches WaitStatus::Continued { pid } ==> (pid > 0 ==> (outcome matches Ok(event)
            && event.tid@ == pid && event.reason == StopReason::Unknown)),
        status is StillAlive ==> (outcome matches Err(DebugError::Backend(cause)) && cause@
            == "waitpid returned StillAlive"@),
        outcome matches Err(DebugError::InvalidPid(raw)) ==> raw <= 0,
        match status {
            WaitStatus::Exited { pid, .. } => pid,
            WaitStatus::Signaled { pid, .. } => pid,
            WaitStatus::Stopped { pid, .. } => pid,
            WaitStatus::PtraceEvent { pid, .. } => pid,
            WaitStatus::PtraceSyscall { pid } => pid,
            WaitStatus::Continued { pid } => pid,
            WaitStatus::StillAlive => 1,
        } <= 0 ==> outcome is Err,
{
}

/// A wait for the next stop ends with the first status that is a stop, as that stop, and lets a
/// process go that is gone. It is repeated where nothing has changed and where the process has only
/// been continued, and then changes nothing.
pub proof fn the_next_stop_ends_the_wait(
    backend: &mut LinuxBackend,
    pid: i32,
    status: WaitStatus,
    step: Step,
)
    requires
        call_ensures(
            LinuxBackend::after_wait,
            (backend, pid, AfterWait::NextStop, Ok(status)),
            step,
        ),
    ensures
        final(backend)@.ptrace_calls == old(backend)@.ptrace_calls,
        status is StillAlive || status is Continued ==> {
            &&& step == (Step::Wait { pid, until: AfterWait::NextStop })
            &&& final(backend)@ == old(backend)@
        },
        step is Wait ==> status is StillAlive || status is Continued,
        status matches WaitStatus::Stopped { pid: tid, signal } ==> (tid > 0 ==> {
            &&& step matches Step::Done(Reply::Stop(Ok(event))) && event.tid@ == tid && event.reason
                == (StopReason::Signal { signal })
            &&& final(backend)@ == old(backend)@
        }),
        status matches WaitStatus::PtraceEvent { pid: tid, signal, event: code } ==> (tid > 0 ==> {
            &&& step matches Step::Done(Reply::Stop(Ok(event))) && event.tid@ == tid && event.reason
                == (StopReason::PtraceEvent { event: code, signal })
            &&& final(backend)@ == old(backend)@
        }),
        status matches WaitStatus::PtraceSyscall { pid: tid } ==> (tid > 0 ==> {
            &&& step matches Step::Done(Reply::Stop(Ok(event))) && event.tid@ == tid && event.reason
                == StopReason::SyscallTrap
            &&& final(backend)@ == old(backend)@
        }),
        status matches WaitStatus::Exited { pid: tid, code } ==> (tid > 0 ==> {
            &&& step matches Step::Done(Reply::Stop(Ok(event))) && event.tid@ == tid && event.reason
                == (StopReason::Exited { code })
            &&& final(backend)@.inferior is None && final(backend)@.ownership is None
        }),
        status matches WaitStatus::Signaled { pid: tid, signal, core_dumped } ==> (tid > 0 ==> {
            &&& step matches Step::Done(Reply::Stop(Ok(event))) && event.tid@ == tid && event.reason
                == (StopReason::Terminated { signal, core_dumped })
            &&& final(backend)@.inferior is None && final(backend)@.ownership is None
        }),
{
}

/// The first stop of a launch or an attach: a process that is not gone has its options set and then
/// ends the operation with that stop, and one that is gone ends it at once and is let go.
pub proof fn the_first_stop_sets_the_options(
    backend: &mut LinuxBackend,
    pid: i32,
    status: WaitStatus,
    step: Step,
)
    requires
        call_ensures(
            LinuxBackend::after_wait,
            (backend, pid, AfterWait::FirstStop, Ok(status)),
            step,
        ),
    ensures
        final(backend)@.ptrace_calls == old(backend)@.ptrace_calls,
        step !is Wait,
        status matches WaitStatus::Stopped { pid: tid, signal } ==> (tid > 0 ==> {
            &&& step matches Step::Ask { request, then: AfterRequest::Configured { event } }
                && request == (Request::SetOptions { pid }) && event.tid@ == tid && event.reason
                == (StopReason::Signal { signal })
            &&& final(backend)@ == old(backend)@
        }),
        status matches WaitStatus::PtraceEvent { pid: tid, signal, event: code } ==> (tid > 0 ==> {
            &&& step matches Step::Ask { request, then: AfterRequest::Configured { event } }
                && request == (Request::SetOptions { pid }) && event.tid@ == tid && event.reason
                == (StopReason::PtraceEvent { event: code, signal })
            &&& final(backend)@ == old(backend)@
        }),
        status matches WaitStatus::PtraceSyscall { pid: tid } ==> (tid > 0 ==> {
            &&& step matches Step::Ask { request, then: AfterRequest::Configured { event } }
                && request == (Request::SetOptions { pid }) && event.tid@ == tid && event.reason
                == StopReason::SyscallTrap
            &&& final(backend)@ == old(backend)@
        }),
        status matches WaitStatus::Continued { pid: tid } ==> (tid > 0 ==> {
            &&& step matches Step::Ask { request, then: AfterRequest::Configured { event } }
                && request == (Request::SetOptions { pid }) && event.tid@ == tid && event.reason
                == StopReason::Unknown
            &&& final(backend)@ == old(backend)@
        }),
        status matches WaitStatus::Exited { pid: tid, code } ==> (tid > 0 ==> {
            &&& step matches Step::Done(Reply::Stop(Ok(event))) && event.tid@ == tid && event.reason
                == (StopReason::Exited { code })
            &&& final(backend)@.inferior is None && final(backend)@.ownership is None
        }),
        status matches WaitStatus::Signaled { pid: tid, signal, core_dumped } ==> (tid > 0 ==> {
            &&& step matches Step::Done(Reply::Stop(Ok(event))) && event.tid@ == tid && event.reason
                == (StopReason::Terminated { signal, core_dumped })
            &&& final(backend)@.inferior is None && final(backend)@.ownership is None
        }),
        status is StillAlive ==> {
            &&& step matches Step::Done(Reply::Stop(Err(DebugError::Backend(cause)))) && cause@
                == "waitpid returned StillAlive"@
            &&& final(backend)@ == old(backend)@
        },
{
}

/// A wait for a stop that fails ends the operation with its error number and changes nothing.
pub proof fn a_wait_that_fails_changes_nothing(
    backend: &mut LinuxBackend,
    pid: i32,
    until: AfterWait,
    errno: i32,
    step: Step,
)
    requires
        call_ensures(LinuxBackend::after_wait, (backend, pid, until, Err(errno)), step),
        until is FirstStop || until is NextStop,
    ensures
        final(backend)@ == old(backend)@,
        step matches Step::Done(Reply::Stop(Err(DebugError::Backend(cause)))) && cause@
            == errno_text_of(errno),
{
}

/// A resume continues the inferior, and a wait waits for it.
pub proof fn the_inferior_is_resumed_and_waited_for(
    backend: &LinuxBackend,
    resume: Step,
    wait: Step,
)
    requires
        call_ensures(LinuxBackend::resume, (backend,), resume),
        call_ensures(LinuxBackend::wait_for_stop, (backend,), wait),
    ensures
        backend@.inferior matches Some(pid) ==> {
            &&& resume == (Step::Ask {
                request: Request::Cont { pid },
                then: AfterRequest::Resumed,
            })
            &&& wait == (Step::Wait { pid, until: AfterWait::NextStop })
        },
        backend@.inferior is None ==> {
            &&& resume == Step::Done(Reply::Unit(Err(DebugError::MissingInferior)))
            &&& wait == Step::Done(Reply::Stop(Err(DebugError::MissingInferior)))
        },
{
}

/// A shutdown detaches from the inferior or kills it, as its policy says.
pub proof fn a_shutdown_follows_its_policy(
    backend: &LinuxBackend,
    detach: Step,
    terminate: Step,
)
    requires
        call_ensures(LinuxBackend::shutdown, (backend, ShutdownPolicy::Detach), detach),
        call_ensures(LinuxBackend::shutdown, (backend, ShutdownPolicy::Terminate), terminate),
    ensures
        backend@.inferior matches Some(pid) ==> {
            &&& detach == (Step::Ask {
                request: Request::Detach { pid },
                then: AfterRequest::Detached,
            })
            &&& terminate == (Step::Ask {
                request: Request::Kill { pid },
                then: AfterRequest::Killed { pid },
            })
        },
        backend@.inferior is None ==> {
            &&& detach == Step::Done(Reply::Unit(Err(DebugError::MissingInferior)))
            &&& terminate == Step::Done(Reply::Unit(Err(DebugError::MissingInferior)))
        },
{
}

/// Registers are read from the inferior, and written to the same.
pub proof fn registers_are_those_of_the_inferior(
    backend: &LinuxBackend,
    name: &str,
    value: u64,
    read: Step,
    write: Step,
    all: Step,
)
    requires
        call_ensures(LinuxBackend::read_register, (backend, name), read),
        call_ensures(LinuxBackend::write_register, (backend, name, value), write),
        call_ensures(LinuxBackend::read_all_registers, (backend,), all),
    ensures
        backend@.inferior matches Some(inferior) ==> {
            &&& read matches Step::GetRegs { pid, purpose: AfterRegs::Read { name: asked } } && pid
                == inferior && asked@ == name@
            &&& write matches Step::GetRegs {
                pid,
                purpose: AfterRegs::Write { pid: target, name: asked, value: wanted },
            } && pid == inferior && target == inferior && asked@ == name@ && wanted == value
            &&& all == (Step::GetRegs { pid: inferior, purpose: AfterRegs::ReadAll })
        },
        backend@.inferior is None ==> {
            &&& read == Step::Done(Reply::Register(Err(DebugError::MissingInferior)))
            &&& write == Step::Done(Reply::Register(Err(DebugError::MissingInferior)))
            &&& all == Step::Done(Reply::Registers(Err(DebugError::MissingInferior)))
        },
{
}

/// The registers of the process answer a read. A write hands back what it made of them, for the
/// same process, and a name that is not known writes nothing. A read of the registers counts.
pub proof fn registers_answer_reads_and_take_writes(
    backend: &mut LinuxBackend,
    purpose: AfterRegs,
    regs: UserRegs,
    step: Step,
)
    requires
        call_ensures(LinuxBackend::after_regs, (backend, purpose, Ok(regs)), step),
    ensures
        final(backend)@.inferior == old(backend)@.inferior,
        final(backend)@.ownership == old(backend)@.ownership,
        old(backend)@.ptrace_calls < u64::MAX ==> final(backend)@.ptrace_calls == old(backend)@.ptrace_calls + 1,
        purpose matches AfterRegs::Read { name } ==> (step matches Step::Done(Reply::Register(read))
            && read_gives(regs, name@, read)),
        purpose is ReadAll ==> (step matches Step::Done(Reply::Registers(Ok(values))) && shows_all(
            regs,
            values@,
        )),
        purpose matches AfterRegs::Write { pid, name, value } ==> {
            ||| step matches Step::Done(Reply::Register(Err(DebugError::UnknownRegister(unknown))))
                && unknown@ == name@ && write_gives(
                regs,
                name@,
                value,
                regs,
                Err(DebugError::UnknownRegister(unknown)),
            )
            ||| step matches Step::Ask {
                request: Request::SetRegs { pid: target, regs: after },
                then: AfterRequest::Written { updated },
            } && target == pid && write_gives(regs, name@, value, after, Ok(updated))
        },
{
    if let AfterRegs::Write { name, .. } = purpose {
        if !crate::aliases::names_nothing(name@) {
            let (base, slice) = choose|
                base: crate::aliases::BaseReg,
                slice: crate::aliases::Slice,
            | #[trigger] crate::aliases::names(name@, base, slice);
            assert(crate::aliases::names(name@, base, slice));
        }
    }
}

/// Registers that cannot be read end the operation with the error number, and change nothing.
pub proof fn registers_that_cannot_be_read_are_an_error(
    backend: &mut LinuxBackend,
    purpose: AfterRegs,
    errno: i32,
    step: Step,
)
    requires
        call_ensures(LinuxBackend::after_regs, (backend, purpose, Err(errno)), step),
    ensures
        final(backend)@ == old(backend)@,
        purpose is ReadAll ==> (step matches Step::Done(
            Reply::Registers(Err(DebugError::Backend(cause))),
        ) && cause@ == errno_text_of(errno)),
        purpose !is ReadAll ==> (step matches Step::Done(
            Reply::Register(Err(DebugError::Backend(cause))),
        ) && cause@ == errno_text_of(errno)),
{
}

/// What is seen of a backend: the inferior that it owns, how many ptrace calls it made, and how it
/// would let go of the inferior. A new one owns nothing and made none.
pub proof fn a_backend_shows_what_it_owns(
    backend: LinuxBackend,
    pid: Option<ProcessId>,
    count: u64,
    policy: Option<ShutdownPolicy>,
)
    requires
        call_ensures(LinuxBackend::active_process, (&backend,), pid),
        call_ensures(LinuxBackend::ptrace_call_count, (&backend,), count),
        call_ensures(LinuxBackend::fallback_policy, (&backend,), policy),
    ensures
        backend@.inferior matches Some(raw) ==> (raw > 0 ==> (pid matches Some(active) && active@
            == raw)),
        pid matches Some(active) ==> backend@.inferior matches Some(raw) && raw == active@,
        count == backend@.ptrace_calls,
        backend@.ownership is None ==> policy is None,
        backend@.ownership == Some(InferiorOwnership::Launched) ==> policy == Some(
            ShutdownPolicy::Terminate,
        ),
        backend@.ownership == Some(InferiorOwnership::Attached) ==> policy == Some(
            ShutdownPolicy::Detach,
        ),
        call_ensures(LinuxBackend::new, (), backend) ==> pid is None && count == 0 && policy is None,
{
}

/// An error number is reported by its text: as the error of a call, and by a child that could not
/// ask to be traced or could not execute its program.
pub proof fn error_numbers_are_reported_by_their_text(
    errno: i32,
    error: DebugError,
    traceme: String,
    exec: String,
)
    requires
        call_ensures(errno_error, (errno,), error),
        call_ensures(traceme_report, (errno,), traceme),
        call_ensures(exec_report, (errno,), exec),
    ensures
        error matches DebugError::Backend(cause) && cause@ == errno_text_of(errno),
        traceme@ == "ptrace(TRACEME) failed: "@ + errno_text_of(errno),
        exec@ == "execvp failed: "@ + errno_text_of(errno),
{
}

} // verus!
