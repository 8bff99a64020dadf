//! How numbers, errors, stops and registers read.

use crate::domain::{DebugError, ProcessId, RegisterValue, StopReason, ThreadId};
#[allow(unused_imports)]
use crate::text::{decimal, digit_char, digits, zero_padded};
use crate::text::{append_decimal, append_digits, append_padded};
use vstd::prelude::*;
use vstd::string::*;

verus! {

/// The digit `d` is this character: `0` to `9`, then `a` to `f`.
proof fn lemma_digit_char(d: nat)
    requires
        d < 16,
    ensures
        d < 10 ==> digit_char(d) as int == '0' as int + d,
        d >= 10 ==> digit_char(d) as int == 'a' as int + d - 10,
{
}

/// The digits of a number are those of the number without its last digit, and then the last digit;
/// a number below the radix is one digit.
pub proof fn digits_run_from_the_highest_to_the_lowest(n: nat, radix: nat)
    requires
        2 <= radix <= 16,
    ensures
        digits(n, radix).len() > 0,
        n % radix < 10 ==> digits(n, radix).last() as int == '0' as int + n % radix,
        n % radix >= 10 ==> digits(n, radix).last() as int == 'a' as int + n % radix - 10,
        n < radix ==> digits(n, radix).len() == 1,
        n >= radix ==> digits(n, radix).drop_last() == digits(n / radix, radix),
{
    lemma_digit_char(n % radix);
    if n < radix {
        assert(n % radix == n) by (nonlinear_arith)
            requires
                n < radix,
        ;
    } else {
        assert(digits(n, radix).drop_last() =~= digits(n / radix, radix));
    }
}

/// A number is appended as its digits.
pub proof fn a_number_is_appended_as_its_digits(out: &mut String, n: u64, radix: u64)
    requires
        call_ensures(append_digits, (out, n, radix), ()),
        2 <= radix <= 16,
    ensures
        final(out)@ == old(out)@ + digits(n as nat, radix as nat),
{
}

/// A number with a sign is appended as its digits, behind a minus sign where it is negative.
pub proof fn a_negative_number_has_a_minus_sign(out: &mut String, n: i64)
    requires
        call_ensures(append_decimal, (out, n), ()),
    ensures
        n >= 0 ==> final(out)@ == old(out)@ + digits(n as nat, 10),
        n < 0 ==> final(out)@ == old(out)@ + seq!['-'] + digits((-n) as nat, 10),
        n >= 0 ==> decimal(n as int) == digits(n as nat, 10),
        n < 0 ==> decimal(n as int) == seq!['-'] + digits((-n) as nat, 10),
{
    if n < 0 {
        assert(old(out)@ + (seq!['-'] + digits((-n) as nat, 10)) =~= old(out)@ + seq!['-'] + digits(
            (-n) as nat,
            10,
        ));
    }
}

/// A padded number has zeros in front of its digits up to the width, and is not cut.
pub proof fn padding_is_zeros_in_front(
    out: &mut String,
    n: u64,
    radix: u64,
    width: usize,
    i: int,
)
    requires
        call_ensures(append_padded, (out, n, radix, width), ()),
        2 <= radix <= 16,
    ensures
        final(out)@ == old(out)@ + zero_padded(digits(n as nat, radix as nat), width as nat),
        ({
            let plain = digits(n as nat, radix as nat);
            let padded = zero_padded(plain, width as nat);
            &&& plain.len() >= width ==> padded == plain
            &&& plain.len() < width ==> padded.len() == width
            &&& padded.skip(padded.len() - plain.len()) == plain
            &&& 0 <= i < padded.len() - plain.len() ==> padded[i] == '0'
        }),
{
    let plain = digits(n as nat, radix as nat);
    let padded = zero_padded(plain, width as nat);
    assert(padded.skip(padded.len() - plain.len()) =~= plain);
}

/// Every error reads as this.
pub proof fn every_error_reads_as_this(error: DebugError, message: String)
    requires
        call_ensures(DebugError::to_string, (&error,), message),
    ensures
        error matches DebugError::InvalidPid(raw) ==> message@ == "invalid pid: "@ + decimal(
            raw as int,
        ),
        error is MissingInferior ==> message@ == "no active inferior process"@,
        error is InferiorAlreadyActive ==> message@ == "inferior process is already active"@,
        error matches DebugError::UnknownRegister(name) ==> message@ == "unknown register: "@
            + name@,
        error matches DebugError::Backend(cause) ==> message@ == "backend error: "@ + cause@,
        error matches DebugError::Io(io) ==> exists|cause: String| #[trigger]
            to_string_from_display_ensures::<std::io::Error>(&io, cause) && message@
                == "io error: "@ + cause@,
{
}

/// Every reason for a stop reads as this.
pub proof fn every_stop_reason_reads_as_this(reason: StopReason, text: String)
    requires
        call_ensures(StopReason::to_string, (&reason,), text),
    ensures
        text@ == reason.text(),
        reason matches StopReason::Signal { signal } ==> reason.text() == "signal-stop(sig="@
            + decimal(signal as int) + ")"@,
        reason matches StopReason::PtraceEvent { event, signal } ==> reason.text()
            == "ptrace-event(event="@ + decimal(event as int) + ", sig="@ + decimal(signal as int)
            + ")"@,
        reason is SyscallTrap ==> reason.text() == "syscall-trap"@,
        reason matches StopReason::Exited { code } ==> reason.text() == "exited(code="@ + decimal(
            code as int,
        ) + ")"@,
        reason matches StopReason::Terminated { signal, core_dumped } ==> (core_dumped
            ==> reason.text() == "terminated(sig="@ + decimal(signal as int) + ", core_dumped="@
            + "true"@ + ")"@),
        reason matches StopReason::Terminated { signal, core_dumped } ==> (!core_dumped
            ==> reason.text() == "terminated(sig="@ + decimal(signal as int) + ", core_dumped="@
            + "false"@ + ")"@),
        reason is Unknown ==> reason.text() == "unknown-stop"@,
{
}

/// A process is gone when it exited or was terminated by a signal, and only then.
pub proof fn only_an_exit_or_a_termination_ends_a_process(reason: StopReason, ends: bool)
    requires
        call_ensures(StopReason::ends_process, (&reason,), ends),
    ensures
        ends == reason.is_final(),
        ends == match reason {
            StopReason::Exited { .. } => true,
            StopReason::Terminated { .. } => true,
            StopReason::Signal { .. } => false,
            StopReason::PtraceEvent { .. } => false,
            StopReason::SyscallTrap => false,
            StopReason::Unknown => false,
        },
{
}

/// A register reads as its name, its value in hexadecimal at its full width, its value in decimal,
/// and its width.
pub proof fn a_register_reads_as_this(value: RegisterValue, text: String, width: usize)
    requires
        call_ensures(RegisterValue::to_string, (&value,), text),
        call_ensures(RegisterValue::hex_width, (value,), width),
    ensures
        width == (value.bits + 3) / 4,
        text@ == value.text(),
        value.text() == value.name@ + ": 0x"@ + zero_padded(
            digits(value.value as nat, 16),
            width as nat,
        ) + " ("@ + digits(value.value as nat, 10) + ") ["@ + digits(value.bits as nat, 10)
            + "-bit]"@,
{
}

/// An id is made of every positive number, and of no other, and gives it back.
pub proof fn ids_give_back_their_numbers(
    raw: i32,
    process: Result<ProcessId, DebugError>,
    thread: Result<ThreadId, DebugError>,
    pid: i32,
    tid: i32,
)
    requires
        call_ensures(ProcessId::new, (raw,), process),
        call_ensures(ThreadId::new, (raw,), thread),
        process matches Ok(id) ==> call_ensures(ProcessId::get, (id,), pid),
        thread matches Ok(id) ==> call_ensures(ThreadId::get, (id,), tid),
    ensures
        raw > 0 ==> process is Ok && thread is Ok && pid == raw && tid == raw,
        raw <= 0 ==> process == Err::<ProcessId, DebugError>(DebugError::InvalidPid(raw)),
        raw <= 0 ==> thread == Err::<ThreadId, DebugError>(DebugError::InvalidPid(raw)),
{
}

} // verus!
