//! Numbers as they are typed on the command line.

#[allow(unused_imports)]
use crate::text::{decimal, digit_char, digits, zero_padded};
use crate::text::append_digits;
use vstd::prelude::*;
use vstd::string::*;

verus! {

/// Why a text is not a number.
#[derive(Debug, Clone, Copy, PartialEq, Eq, Structural)]
pub enum NumberError {
    /// There is nothing in it.
    Empty,
    /// There is something in it that is no digit.
    InvalidDigit,
    /// The number is too large.
    TooLarge,
    /// The number is too small.
    TooSmall,
}

impl NumberError {
    /// The text of this error.
    pub open spec fn text(self) -> Seq<char> {
        match self {
            NumberError::Empty => "cannot parse integer from empty string"@,
            NumberError::InvalidDigit => "invalid digit found in string"@,
            NumberError::TooLarge => "number too large to fit in target type"@,
            NumberError::TooSmall => "number too small to fit in target type"@,
        }
    }

    /// The text of this error.
    pub fn to_text(self) -> (text: &'static str)
        ensures
            text@ == self.text(),
    {
        match self {
            NumberError::Empty => "cannot parse integer from empty string",
            NumberError::InvalidDigit => "invalid digit found in string",
            NumberError::TooLarge => "number too large to fit in target type",
            NumberError::TooSmall => "number too small to fit in target type",
        }
    }
}

/// The value of a digit of up to sixteen, in either case.
pub open spec fn digit_value(c: char) -> nat {
    if '0' <= c <= '9' {
        (c as int - '0' as int) as nat
    } else if 'a' <= c <= 'f' {
        (c as int - 'a' as int + 10) as nat
    } else {
        (c as int - 'A' as int + 10) as nat
    }
}

/// `c` is a digit in this radix.
pub open spec fn is_digit(c: char, radix: nat) -> bool {
    ('0' <= c <= '9' || 'a' <= c <= 'f' || 'A' <= c <= 'F') && digit_value(c) < radix
}

/// The number of digits that a text begins with.
pub open spec fn digit_run(text: Seq<char>, radix: nat) -> nat
    decreases text.len(),
{
    if text.len() == 0 || !is_digit(text[0], radix) {
        0
    } else {
        1 + digit_run(text.drop_first(), radix)
    }
}

/// The number that a sequence of digits denotes.
pub open spec fn numeral(text: Seq<char>, radix: nat) -> nat
    decreases text.len(),
{
    if text.len() == 0 {
        0
    } else {
        numeral(text.drop_last(), radix) * radix + digit_value(text.last())
    }
}

/// The number up to `limit` that a text without a sign denotes. Where the digits in front are
/// already too many, it does not matter what comes behind them.
pub open spec fn magnitude(text: Seq<char>, radix: nat, limit: nat) -> Result<nat, NumberError> {
    let run = digit_run(text, radix);
    let value = numeral(text.take(run as int), radix);
    if value > limit {
        Err(NumberError::TooLarge)
    } else if run < text.len() {
        Err(NumberError::InvalidDigit)
    } else {
        Ok(value)
    }
}

/// The number up to `limit` that a text denotes, with a plus sign in front or without one.
pub open spec fn unsigned(text: Seq<char>, radix: nat, limit: nat) -> Result<nat, NumberError> {
    if text.len() == 0 {
        Err(NumberError::Empty)
    } else if text == seq!['+'] {
        Err(NumberError::InvalidDigit)
    } else if text[0] == '+' {
        magnitude(text.drop_first(), radix, limit)
    } else {
        magnitude(text, radix, limit)
    }
}

/// The number of 32 bits that a text denotes in decimal, with a sign in front or without one.
pub open spec fn signed(text: Seq<char>) -> Result<int, NumberError> {
    if text.len() > 1 && text[0] == '-' {
        match magnitude(text.drop_first(), 10, 0x8000_0000) {
            Ok(value) => Ok(-value),
            Err(NumberError::TooLarge) => Err(NumberError::TooSmall),
            Err(error) => Err(error),
        }
    } else {
        match unsigned(text, 10, 0x7FFF_FFFF) {
            Ok(value) => Ok(value as int),
            Err(error) => Err(error),
        }
    }
}

/// A text begins with as many digits as there are before the first that is none.
pub proof fn lemma_digit_run(text: Seq<char>, radix: nat, run: nat)
    requires
        run <= text.len(),
        forall|i: int| 0 <= i < run ==> is_digit(#[trigger] text[i], radix),
        run < text.len() ==> !is_digit(text[run as int], radix),
    ensures
        digit_run(text, radix) == run,
    decreases run,
{
    if run > 0 {
        assert(is_digit(text[0], radix));
        let rest = text.drop_first();
        assert forall|i: int| 0 <= i < run - 1 implies is_digit(#[trigger] rest[i], radix) by {
            assert(rest[i] == text[i + 1]);
        }
        lemma_digit_run(rest, radix, (run - 1) as nat);
    }
}

/// More digits do not make a number smaller.
pub proof fn lemma_numeral_grows(text: Seq<char>, radix: nat, from: int, to: int)
    requires
        0 <= from <= to <= text.len(),
        radix > 0,
    ensures
        numeral(text.take(from), radix) <= numeral(text.take(to), radix),
    decreases to - from,
{
    if from < to {
        lemma_numeral_grows(text, radix, from, to - 1);
        assert(text.take(to).drop_last() =~= text.take(to - 1));
        let before = numeral(text.take(to - 1), radix);
        assert(before <= before * radix) by (nonlinear_arith)
            requires
                radix > 0,
        ;
    }
}

/// A text whose first `run` characters are digits begins with at least as many digits.
pub proof fn lemma_digit_run_at_least(text: Seq<char>, radix: nat, run: nat)
    requires
        run <= text.len(),
        forall|i: int| 0 <= i < run ==> is_digit(#[trigger] text[i], radix),
    ensures
        run <= digit_run(text, radix) <= text.len(),
    decreases text.len(),
{
    if text.len() > 0 && is_digit(text[0], radix) {
        let rest = text.drop_first();
        let less = if run > 0 {
            (run - 1) as nat
        } else {
            0
        };
        assert forall|i: int| 0 <= i < less implies is_digit(#[trigger] rest[i], radix) by {
            assert(rest[i] == text[i + 1]);
        }
        lemma_digit_run_at_least(rest, radix, less);
    }
}

/// The digit that `c` is in this radix.
fn digit_of(c: char, radix: u64) -> (digit: Option<u64>)
    requires
        radix <= 16,
    ensures
        match digit {
            Some(value) => is_digit(c, radix as nat) && value == digit_value(c),
            None => !is_digit(c, radix as nat),
        },
{
    let code: u32 = c as u32;
    let value: u32 = if '0' <= c && c <= '9' {
        code - 48
    } else if 'a' <= c && c <= 'f' {
        code - 87
    } else if 'A' <= c && c <= 'F' {
        code - 55
    } else {
        return None;
    };
    if (value as u64) < radix {
        Some(value as u64)
    } else {
        None
    }
}

/// The number up to `limit` that the text from `start` on denotes, without a sign.
fn parse_magnitude(text: &str, start: usize, radix: u64, limit: u64) -> (result: Result<
    u64,
    NumberError,
>)
    requires
        start <= text@.len(),
        1 < radix <= 16,
    ensures
        match magnitude(text@.skip(start as int), radix as nat, limit as nat) {
            Ok(value) => result == Ok::<u64, NumberError>(value as u64) && value <= limit,
            Err(error) => result == Err::<u64, NumberError>(error),
        },
{
    let ghost body = text@.skip(start as int);
    let ghost base = radix as nat;
    let len = text.unicode_len();
    let mut value: u64 = 0;
    let mut i: usize = start;
    assert(body.take(0) =~= Seq::empty());
    while i < len
        invariant
            start <= i <= len,
            len == text@.len(),
            body == text@.skip(start as int),
            base == radix,
            1 < radix <= 16,
            forall|j: int| 0 <= j < i - start ==> is_digit(#[trigger] body[j], base),
            value == numeral(body.take(i - start), base),
            value <= limit,
        decreases len - i,
    {
        let c = text.get_char(i);
        let ghost at = i - start;
        assert(c == body[at]);
        let digit = match digit_of(c, radix) {
            Some(digit) => digit,
            None => {
                proof {
                    lemma_digit_run(body, base, at as nat);
                }
                return Err(NumberError::InvalidDigit);
            },
        };
        let ghost longer = body.take(at + 1);
        assert(longer.drop_last() =~= body.take(at));
        assert(value * radix <= 0xFFFF_FFFF_FFFF_FFFF * 16) by (nonlinear_arith)
            requires
                0 <= value <= 0xFFFF_FFFF_FFFF_FFFF,
                0 <= radix <= 16,
        ;
        let wide: u128 = value as u128 * radix as u128 + digit as u128;
        assert(wide == numeral(longer, base));
        if wide > limit as u128 {
            proof {
                lemma_digit_run_at_least(body, base, (at + 1) as nat);
                lemma_numeral_grows(body, base, at + 1, digit_run(body, base) as int);
            }
            return Err(NumberError::TooLarge);
        }
        value = wide as u64;
        i += 1;
    }
    proof {
        lemma_digit_run(body, base, body.len());
        assert(body.take(body.len() as int) =~= body);
    }
    Ok(value)
}

/// The number up to `limit` that the text from `start` on denotes, with a plus sign in front or
/// without one.
fn parse_unsigned(text: &str, start: usize, radix: u64, limit: u64) -> (result: Result<
    u64,
    NumberError,
>)
    requires
        start <= text@.len(),
        1 < radix <= 16,
    ensures
        match unsigned(text@.skip(start as int), radix as nat, limit as nat) {
            Ok(value) => result == Ok::<u64, NumberError>(value as u64) && value <= limit,
            Err(error) => result == Err::<u64, NumberError>(error),
        },
{
    let ghost body = text@.skip(start as int);
    let len = text.unicode_len();
    if start == len {
        return Err(NumberError::Empty);
    }
    let c = text.get_char(start);
    assert(c == body[0]);
    if c == '+' {
        if len - start == 1 {
            assert(body =~= seq!['+']);
            return Err(NumberError::InvalidDigit);
        }
        assert(body.drop_first() =~= text@.skip(start + 1));
        return parse_magnitude(text, start + 1, radix, limit);
    }
    parse_magnitude(text, start, radix, limit)
}

/// Whether `text` begins with these two characters.
fn has_prefix(text: &str, first: char, second: char) -> (result: bool)
    ensures
        result == (text@.len() >= 2 && text@[0] == first && text@[1] == second),
{
    text.unicode_len() >= 2 && text.get_char(0) == first && text.get_char(1) == second
}

/// The message that `raw` is not a number of this kind.
pub open spec fn invalid(kind: Seq<char>, raw: Seq<char>, error: NumberError) -> Seq<char> {
    "invalid "@ + kind + " value `"@ + raw + "`: "@ + error.text()
}

/// The message that `raw` is not a number of this kind.
fn invalid_message(kind: &str, raw: &str, error: NumberError) -> (message: String)
    ensures
        message@ == invalid(kind@, raw@, error),
{
    let mut message = "invalid ".to_owned();
    message.append(kind);
    message.append(" value `");
    message.append(raw);
    message.append("`: ");
    message.append(error.to_text());
    message
}

/// The number, or the message, that a text stands for in this radix, from `start` on.
pub open spec fn u64_in(raw: Seq<char>, start: int, radix: nat, kind: Seq<char>) -> Result<
    nat,
    Seq<char>,
> {
    match unsigned(raw.skip(start), radix, u64::MAX as nat) {
        Ok(value) => Ok(value),
        Err(error) => Err(invalid(kind, raw, error)),
    }
}

/// The number, or the message, that a text stands for: hexadecimal, binary or octal with the
/// prefix `0x`, `0b` or `0o`, and decimal without.
pub open spec fn u64_of(raw: Seq<char>) -> Result<nat, Seq<char>> {
    if raw.len() >= 2 && raw[0] == '0' && raw[1] == 'x' {
        u64_in(raw, 2, 16, "hex"@)
    } else if raw.len() >= 2 && raw[0] == '0' && raw[1] == 'b' {
        u64_in(raw, 2, 2, "binary"@)
    } else if raw.len() >= 2 && raw[0] == '0' && raw[1] == 'o' {
        u64_in(raw, 2, 8, "octal"@)
    } else {
        u64_in(raw, 0, 10, "decimal"@)
    }
}

/// Parse `u64` supporting prefixes: `0x`, `0b`, and `0o`.
pub fn parse_u64(raw: &str) -> (result: Result<u64, String>)
    ensures
        match u64_of(raw@) {
            Ok(value) => result == Ok::<u64, String>(value as u64) && value <= u64::MAX,
            Err(message) => result matches Err(text) && text@ == message,
        },
{
    let (start, radix, kind): (usize, u64, &str) = if has_prefix(raw, '0', 'x') {
        (2, 16, "hex")
    } else if has_prefix(raw, '0', 'b') {
        (2, 2, "binary")
    } else if has_prefix(raw, '0', 'o') {
        (2, 8, "octal")
    } else {
        (0, 10, "decimal")
    };
    match parse_unsigned(raw, start, radix, u64::MAX) {
        Ok(value) => Ok(value),
        Err(error) => Err(invalid_message(kind, raw, error)),
    }
}

/// The number, or the message, that a text stands for, where it must fit in 32 bits.
pub open spec fn u32_of(raw: Seq<char>) -> Result<nat, Seq<char>> {
    match u64_of(raw) {
        Ok(value) => if value <= u32::MAX {
            Ok(value)
        } else {
            Err("value out of range for u32: "@ + digits(value, 10))
        },
        Err(message) => Err(message),
    }
}

/// Parse `u32` using `parse_u64` and range-checking.
pub fn parse_u32(raw: &str) -> (result: Result<u32, String>)
    ensures
        match u32_of(raw@) {
            Ok(value) => result == Ok::<u32, String>(value as u32) && value <= u32::MAX,
            Err(message) => result matches Err(text) && text@ == message,
        },
{
    let value = match parse_u64(raw) {
        Ok(value) => value,
        Err(message) => return Err(message),
    };
    if value <= u32::MAX as u64 {
        Ok(value as u32)
    } else {
        let mut message = "value out of range for u32: ".to_owned();
        append_digits(&mut message, value, 10);
        Err(message)
    }
}

/// Parse signed 32-bit integer.
pub fn parse_i32(raw: &str) -> (result: Result<i32, String>)
    ensures
        match signed(raw@) {
            Ok(value) => result == Ok::<i32, String>(value as i32) && i32::MIN <= value <= i32::MAX,
            Err(error) => result matches Err(text) && text@ == invalid("i32"@, raw@, error),
        },
{
    assert(raw@.skip(0) =~= raw@);
    if raw.unicode_len() > 1 && raw.get_char(0) == '-' {
        assert(raw@.drop_first() =~= raw@.skip(1));
        return match parse_magnitude(raw, 1, 10, 0x8000_0000) {
            Ok(value) => Ok((-(value as i64)) as i32),
            Err(NumberError::TooLarge) => Err(invalid_message("i32", raw, NumberError::TooSmall)),
            Err(error) => Err(invalid_message("i32", raw, error)),
        };
    }
    match parse_unsigned(raw, 0, 10, 0x7FFF_FFFF) {
        Ok(value) => Ok(value as i32),
        Err(error) => Err(invalid_message("i32", raw, error)),
    }
}

/// A sequence of digits that fits denotes its number.
proof fn lemma_all_digits(text: Seq<char>, radix: nat, limit: nat)
    requires
        text.len() > 0,
        forall|i: int| 0 <= i < text.len() ==> is_digit(#[trigger] text[i], radix),
        numeral(text, radix) <= limit,
    ensures
        unsigned(text, radix, limit) == Ok::<nat, NumberError>(numeral(text, radix)),
{
    lemma_digit_run(text, radix, text.len());
    assert(text.take(text.len() as int) =~= text);
    assert(is_digit(text[0], radix));
}

/// The digits of a number are digits, and denote it.
proof fn lemma_digits_denote(n: nat, radix: nat)
    requires
        1 < radix <= 16,
    ensures
        digits(n, radix).len() > 0,
        forall|i: int|
            0 <= i < digits(n, radix).len() ==> is_digit(#[trigger] digits(n, radix)[i], radix),
        numeral(digits(n, radix), radix) == n,
    decreases n,
{
    let text = digits(n, radix);
    if n < radix {
        assert(text.drop_last() =~= Seq::empty());
        assert(numeral(text.drop_last(), radix) == 0);
        assert(0 * radix == 0);
    } else {
        assert(n / radix < n && n / radix * radix + n % radix == n && n % radix < radix)
            by (nonlinear_arith)
            requires
                1 < radix <= n,
        ;
        lemma_digits_denote(n / radix, radix);
        assert(text.drop_last() =~= digits(n / radix, radix));
        assert forall|i: int| 0 <= i < text.len() implies is_digit(#[trigger] text[i], radix) by {
            if i < text.len() - 1 {
                assert(text[i] == digits(n / radix, radix)[i]);
            }
        }
    }
}

/// Zeros in front of a number change nothing.
proof fn lemma_padding_denotes_nothing(zeros: Seq<char>, text: Seq<char>, radix: nat)
    requires
        forall|i: int| 0 <= i < zeros.len() ==> zeros[i] == '0',
    ensures
        numeral(zeros + text, radix) == numeral(text, radix),
    decreases zeros.len() + text.len(),
{
    let all = zeros + text;
    if text.len() > 0 {
        assert(all.drop_last() =~= zeros + text.drop_last());
        assert(all.last() == text.last());
        lemma_padding_denotes_nothing(zeros, text.drop_last(), radix);
    } else if zeros.len() > 0 {
        assert(all.drop_last() =~= zeros.drop_last() + text);
        assert(all.last() == '0');
        lemma_padding_denotes_nothing(zeros.drop_last(), text, radix);
        assert(0 * radix == 0);
    } else {
        assert(all =~= text);
    }
}

/// A number that was printed in hexadecimal, with zeros in front up to any width, as registers are,
/// is parsed back.
pub proof fn printed_hex_parses_back(n: u64, width: nat)
    ensures
        u64_of("0x"@ + zero_padded(digits(n as nat, 16), width)) == Ok::<nat, Seq<char>>(n as nat),
{
    reveal_strlit("0x");
    let text = zero_padded(digits(n as nat, 16), width);
    let raw = "0x"@ + text;
    assert(raw.skip(2) =~= text);
    lemma_digits_denote(n as nat, 16);
    if digits(n as nat, 16).len() < width {
        let zeros = Seq::new((width - digits(n as nat, 16).len()) as nat, |i: int| '0');
        lemma_padding_denotes_nothing(zeros, digits(n as nat, 16), 16);
        assert forall|i: int| 0 <= i < text.len() implies is_digit(#[trigger] text[i], 16) by {
            if i >= zeros.len() {
                assert(text[i] == digits(n as nat, 16)[i - zeros.len()]);
            }
        }
    }
    lemma_all_digits(text, 16, u64::MAX as nat);
}

/// A number that was printed in decimal is parsed back.
pub proof fn printed_decimal_parses_back(n: u64)
    ensures
        u64_of(digits(n as nat, 10)) == Ok::<nat, Seq<char>>(n as nat),
        n <= u32::MAX ==> u32_of(digits(n as nat, 10)) == Ok::<nat, Seq<char>>(n as nat),
{
    let text = digits(n as nat, 10);
    assert(text.skip(0) =~= text);
    lemma_digits_denote(n as nat, 10);
    lemma_all_digits(text, 10, u64::MAX as nat);
    if text.len() >= 2 {
        assert(is_digit(text[1], 10));
    }
}

/// A process id that was printed, or any number of 32 bits with its sign, is parsed back.
pub proof fn printed_i32_parses_back(n: i32)
    ensures
        signed(decimal(n as int)) == Ok::<int, NumberError>(n as int),
{
    let text = decimal(n as int);
    if n < 0 {
        let body = digits((-n) as nat, 10);
        assert(text.drop_first() =~= body);
        lemma_digits_denote((-n) as nat, 10);
        lemma_digit_run(body, 10, body.len());
        assert(body.take(body.len() as int) =~= body);
    } else {
        lemma_digits_denote(n as nat, 10);
        lemma_all_digits(text, 10, 0x7FFF_FFFF);
        assert(is_digit(text[0], 10));
    }
}

} // verus!
