//! How the numbers that are typed grow, digit by digit.

#[allow(unused_imports)]
use crate::numbers::{
    digit_run, digit_value, invalid, is_digit, lemma_digit_run, lemma_digit_run_at_least,
    lemma_numeral_grows, magnitude, numeral, signed, u32_of, u64_in, u64_of, unsigned, NumberError,
};
use crate::numbers::{parse_i32, parse_u32, parse_u64};
#[allow(unused_imports)]
use crate::text::digits;
use vstd::prelude::*;

verus! {

/// The digits that a text begins with are digits, and what follows them is none.
proof fn lemma_run_facts(text: Seq<char>, radix: nat)
    ensures
        digit_run(text, radix) <= text.len(),
        forall|i: int| 0 <= i < digit_run(text, radix) ==> is_digit(#[trigger] text[i], radix),
        digit_run(text, radix) < text.len() ==> !is_digit(
            text[digit_run(text, radix) as int],
            radix,
        ),
    decreases text.len(),
{
    if text.len() > 0 && is_digit(text[0], radix) {
        let rest = text.drop_first();
        lemma_run_facts(rest, radix);
        assert forall|i: int| 0 <= i < digit_run(text, radix) implies is_digit(
            #[trigger] text[i],
            radix,
        ) by {
            if i > 0 {
                assert(text[i] == rest[i - 1]);
            }
        }
    }
}

/// One more character behind a number without a sign.
proof fn lemma_magnitude_push(text: Seq<char>, c: char, radix: nat, limit: nat)
    requires
        radix > 0,
    ensures
        match magnitude(text, radix, limit) {
            Ok(n) => magnitude(text.push(c), radix, limit) == if !is_digit(c, radix) {
                Err(NumberError::InvalidDigit)
            } else if n * radix + digit_value(c) > limit {
                Err(NumberError::TooLarge)
            } else {
                Ok::<nat, NumberError>((n * radix + digit_value(c)) as nat)
            },
            Err(error) => magnitude(text.push(c), radix, limit) == Err::<nat, NumberError>(error),
        },
{
    let longer = text.push(c);
    let run = digit_run(text, radix);
    lemma_run_facts(text, radix);
    assert forall|i: int| 0 <= i < run implies is_digit(#[trigger] longer[i], radix) by {
        assert(longer[i] == text[i]);
    }
    assert(longer.take(run as int) =~= text.take(run as int));
    if run < text.len() {
        assert(longer[run as int] == text[run as int]);
        lemma_digit_run(longer, radix, run);
    } else {
        assert(text.take(run as int) =~= text);
        if is_digit(c, radix) {
            assert forall|i: int| 0 <= i < longer.len() implies is_digit(
                #[trigger] longer[i],
                radix,
            ) by {
                if i < run {
                    assert(longer[i] == text[i]);
                }
            }
            lemma_digit_run(longer, radix, longer.len());
            assert(longer.take(longer.len() as int) =~= longer);
            assert(longer.drop_last() =~= text);
            lemma_numeral_grows(longer, radix, run as int, longer.len() as int);
        } else {
            lemma_digit_run(longer, radix, run);
        }
    }
}

/// One more character behind a number with a plus sign or without one.
proof fn lemma_unsigned_push(text: Seq<char>, c: char, radix: nat, limit: nat)
    requires
        radix > 0,
        limit >= 16,
    ensures
        text.len() == 0 || text == seq!['+'] ==> unsigned(text.push(c), radix, limit)
            == if is_digit(c, radix) {
            Ok(digit_value(c))
        } else {
            Err::<nat, NumberError>(NumberError::InvalidDigit)
        },
        text.len() > 0 && text != seq!['+'] ==> match unsigned(text, radix, limit) {
            Ok(n) => unsigned(text.push(c), radix, limit) == if !is_digit(c, radix) {
                Err(NumberError::InvalidDigit)
            } else if n * radix + digit_value(c) > limit {
                Err(NumberError::TooLarge)
            } else {
                Ok::<nat, NumberError>((n * radix + digit_value(c)) as nat)
            },
            Err(error) => unsigned(text.push(c), radix, limit) == Err::<nat, NumberError>(error),
        },
{
    let empty = Seq::<char>::empty();
    assert(magnitude(empty, radix, limit) == Ok::<nat, NumberError>(0)) by {
        assert(empty.take(0) =~= empty);
    }
    lemma_magnitude_push(empty, c, radix, limit);
    assert(0 * radix == 0);
    if text.len() == 0 {
        assert(text =~= empty);
        assert(text.push(c)[0] == c);
        if c == '+' {
            assert(text.push(c) =~= seq!['+']);
        }
    } else {
        assert(text.push(c)[0] == text[0]);
        assert(text.push(c) != seq!['+']) by {
            assert(text.push(c).len() == text.len() + 1);
        }
        if text[0] == '+' {
            assert(text.push(c).drop_first() =~= text.drop_first().push(c));
            lemma_magnitude_push(text.drop_first(), c, radix, limit);
            if text.len() == 1 {
                assert(text =~= seq!['+']);
                assert(text.drop_first() =~= empty);
            }
        } else {
            lemma_magnitude_push(text, c, radix, limit);
        }
    }
}

/// A hexadecimal number, behind `0x`, grows by one digit at a time: it is `16` times what it was, and the
/// digit. It is refused where it gets too large and where something else than a digit follows.
pub proof fn a_hex_number_grows_digit_by_digit(
    raw: &str,
    longer: &str,
    c: char,
    d: int,
    short: Result<u64, String>,
    long: Result<u64, String>,
)
    requires
        call_ensures(parse_u64, (raw,), short),
        call_ensures(parse_u64, (longer,), long),
        longer@ == raw@.push(c),
        raw@.len() >= 2,
        raw@[0] == '0',
        raw@[1] == 'x',
        ({
            ||| '0' <= c <= '9' && d == c as int - '0' as int
            ||| 'a' <= c <= 'f' && d == c as int - 'a' as int + 10
            ||| 'A' <= c <= 'F' && d == c as int - 'A' as int + 10
            ||| !('0' <= c <= '9') && !('a' <= c <= 'f') && !('A' <= c <= 'F') && d == -1
        }),
    ensures
        raw@.len() == 2 ==> (short matches Err(text) && text@ == "invalid "@ + "hex"@ + " value `"@ + raw@
            + "`: "@ + "cannot parse integer from empty string"@),
        raw@.len() == 2 || (raw@.len() == 3 && raw@[2] == '+') ==> {
            &&& d >= 0 ==> long == Ok::<u64, String>(d as u64)
            &&& d < 0 ==> (long matches Err(text) && text@ == "invalid "@ + "hex"@ + " value `"@ + longer@ + "`: "@ + "invalid digit found in string"@)
        },
        !(raw@.len() == 2 || (raw@.len() == 3 && raw@[2] == '+')) ==> match short {
            Ok(n) => {
                &&& d >= 0 && n * 16 + d <= u64::MAX ==> long == Ok::<u64, String>((n * 16 + d) as u64)
                &&& d >= 0 && n * 16 + d > u64::MAX ==> (long matches Err(text) && text@
                    == "invalid "@ + "hex"@ + " value `"@ + longer@ + "`: "@ + "number too large to fit in target type"@)
                &&& d < 0 ==> (long matches Err(text) && text@ == "invalid "@ + "hex"@ + " value `"@ + longer@ + "`: "@ + "invalid digit found in string"@)
            },
            Err(message) => exists|reason: Seq<char>| #[trigger]
                ("invalid "@ + "hex"@ + " value `"@ + raw@ + "`: "@ + reason) == message@ && (
                long matches Err(text) && text@ == "invalid "@ + "hex"@ + " value `"@ + longer@
                    + "`: "@ + reason),
        },
{
    let body = raw@.skip(2);
    assert(longer@.skip(2) =~= body.push(c));
    lemma_unsigned_push(body, c, 16, u64::MAX as nat);
    assert(is_digit(c, 16) == (d >= 0));
    assert(d >= 0 ==> digit_value(c) == d);
    if raw@.len() == 3 && raw@[2] == '+' {
        assert(body =~= seq!['+']);
    }
    if body == seq!['+'] {
        assert(body.len() == 1 && body[0] == '+');
        assert(raw@[2] == body[0]);
    }
    assert(longer@[0] == '0' && longer@[1] == 'x');
    if let Err(error) = unsigned(body, 16, u64::MAX as nat) {
        assert("invalid "@ + "hex"@ + " value `"@ + raw@ + "`: "@ + error.text() == invalid(
            "hex"@,
            raw@,
            error,
        ));
    }
}

/// A binary number, behind `0b`, grows by one digit at a time: it is `2` times what it was, and the
/// digit. It is refused where it gets too large and where something else than a digit follows.
pub proof fn a_binary_number_grows_digit_by_digit(
    raw: &str,
    longer: &str,
    c: char,
    d: int,
    short: Result<u64, String>,
    long: Result<u64, String>,
)
    requires
        call_ensures(parse_u64, (raw,), short),
        call_ensures(parse_u64, (longer,), long),
        longer@ == raw@.push(c),
        raw@.len() >= 2,
        raw@[0] == '0',
        raw@[1] == 'b',
        ('0' <= c <= '1' && d == c as int - '0' as int) || (!('0' <= c <= '1') && d == -1),
    ensures
        raw@.len() == 2 ==> (short matches Err(text) && text@ == "invalid "@ + "binary"@ + " value `"@ + raw@
            + "`: "@ + "cannot parse integer from empty string"@),
        raw@.len() == 2 || (raw@.len() == 3 && raw@[2] == '+') ==> {
            &&& d >= 0 ==> long == Ok::<u64, String>(d as u64)
            &&& d < 0 ==> (long matches Err(text) && text@ == "invalid "@ + "binary"@ + " value `"@ + longer@ + "`: "@ + "invalid digit found in string"@)
        },
        !(raw@.len() == 2 || (raw@.len() == 3 && raw@[2] == '+')) ==> match short {
            Ok(n) => {
                &&& d >= 0 && n * 2 + d <= u64::MAX ==> long == Ok::<u64, String>((n * 2 + d) as u64)
                &&& d >= 0 && n * 2 + d > u64::MAX ==> (long matches Err(text) && text@
                    == "invalid "@ + "binary"@ + " value `"@ + longer@ + "`: "@ + "number too large to fit in target type"@)
                &&& d < 0 ==> (long matches Err(text) && text@ == "invalid "@ + "binary"@ + " value `"@ + longer@ + "`: "@ + "invalid digit found in string"@)
            },
            Err(message) => exists|reason: Seq<char>| #[trigger]
                ("invalid "@ + "binary"@ + " value `"@ + raw@ + "`: "@ + reason) == message@ && (
                long matches Err(text) && text@ == "invalid "@ + "binary"@ + " value `"@ + longer@
                    + "`: "@ + reason),
        },
{
    let body = raw@.skip(2);
    assert(longer@.skip(2) =~= body.push(c));
    lemma_unsigned_push(body, c, 2, u64::MAX as nat);
    assert(is_digit(c, 2) == (d >= 0));
    assert(d >= 0 ==> digit_value(c) == d);
    if raw@.len() == 3 && raw@[2] == '+' {
        assert(body =~= seq!['+']);
    }
    if body == seq!['+'] {
        assert(body.len() == 1 && body[0] == '+');
        assert(raw@[2] == body[0]);
    }
    assert(longer@[0] == '0' && longer@[1] == 'b');
    if let Err(error) = unsigned(body, 2, u64::MAX as nat) {
        assert("invalid "@ + "binary"@ + " value `"@ + raw@ + "`: "@ + error.text() == invalid(
            "binary"@,
            raw@,
            error,
        ));
    }
}

/// A octal number, behind `0o`, grows by one digit at a time: it is `8` times what it was, and the
/// digit. It is refused where it gets too large and where something else than a digit follows.
pub proof fn a_octal_number_grows_digit_by_digit(
    raw: &str,
    longer: &str,
    c: char,
    d: int,
    short: Result<u64, String>,
    long: Result<u64, String>,
)
    requires
        call_ensures(parse_u64, (raw,), short),
        call_ensures(parse_u64, (longer,), long),
        longer@ == raw@.push(c),
        raw@.len() >= 2,
        raw@[0] == '0',
        raw@[1] == 'o',
        ('0' <= c <= '7' && d == c as int - '0' as int) || (!('0' <= c <= '7') && d == -1),
    ensures
        raw@.len() == 2 ==> (short matches Err(text) && text@ == "invalid "@ + "octal"@ + " value `"@ + raw@
            + "`: "@ + "cannot parse integer from empty string"@),
        raw@.len() == 2 || (raw@.len() == 3 && raw@[2] == '+') ==> {
            &&& d >= 0 ==> long == Ok::<u64, String>(d as u64)
            &&& d < 0 ==> (long matches Err(text) && text@ == "invalid "@ + "octal"@ + " value `"@ + longer@ + "`: "@ + "invalid digit found in string"@)
        },
        !(raw@.len() == 2 || (raw@.len() == 3 && raw@[2] == '+')) ==> match short {
            Ok(n) => {
                &&& d >= 0 && n * 8 + d <= u64::MAX ==> long == Ok::<u64, String>((n * 8 + d) as u64)
                &&& d >= 0 && n * 8 + d > u64::MAX ==> (long matches Err(text) && text@
                    == "invalid "@ + "octal"@ + " value `"@ + longer@ + "`: "@ + "number too large to fit in target type"@)
                &&& d < 0 ==> (long matches Err(text) && text@ == "invalid "@ + "octal"@ + " value `"@ + longer@ + "`: "@ + "invalid digit found in string"@)
            },
            Err(message) => exists|reason: Seq<char>| #[trigger]
                ("invalid "@ + "octal"@ + " value `"@ + raw@ + "`: "@ + reason) == message@ && (
                long matches Err(text) && text@ == "invalid "@ + "octal"@ + " value `"@ + longer@
                    + "`: "@ + reason),
        },
{
    let body = raw@.skip(2);
    assert(longer@.skip(2) =~= body.push(c));
    lemma_unsigned_push(body, c, 8, u64::MAX as nat);
    assert(is_digit(c, 8) == (d >= 0));
    assert(d >= 0 ==> digit_value(c) == d);
    if raw@.len() == 3 && raw@[2] == '+' {
        assert(body =~= seq!['+']);
    }
    if body == seq!['+'] {
        assert(body.len() == 1 && body[0] == '+');
        assert(raw@[2] == body[0]);
    }
    assert(longer@[0] == '0' && longer@[1] == 'o');
    if let Err(error) = unsigned(body, 8, u64::MAX as nat) {
        assert("invalid "@ + "octal"@ + " value `"@ + raw@ + "`: "@ + error.text() == invalid(
            "octal"@,
            raw@,
            error,
        ));
    }
}

/// A decimal number grows by one digit at a time: it is ten times what it was, and the digit. It is
/// refused where it gets too large and where something else than a digit follows.
pub proof fn a_decimal_number_grows_digit_by_digit(
    raw: &str,
    longer: &str,
    c: char,
    d: int,
    short: Result<u64, String>,
    long: Result<u64, String>,
)
    requires
        call_ensures(parse_u64, (raw,), short),
        call_ensures(parse_u64, (longer,), long),
        longer@ == raw@.push(c),
        raw@.len() >= 1 ==> !(raw@[0] == '0' && (longer@[1] == 'x' || longer@[1] == 'b' || longer@[1]
            == 'o')),
        ('0' <= c <= '9' && d == c as int - '0' as int) || (!('0' <= c <= '9') && d == -1),
    ensures
        raw@.len() == 0 ==> (short matches Err(text) && text@ == "invalid "@ + "decimal"@ + " value `"@ + raw@
            + "`: "@ + "cannot parse integer from empty string"@),
        raw@.len() == 0 || (raw@.len() == 1 && raw@[0] == '+') ==> {
            &&& d >= 0 ==> long == Ok::<u64, String>(d as u64)
            &&& d < 0 ==> (long matches Err(text) && text@ == "invalid "@ + "decimal"@ + " value `"@ + longer@ + "`: "@ + "invalid digit found in string"@)
        },
        !(raw@.len() == 0 || (raw@.len() == 1 && raw@[0] == '+')) ==> match short {
            Ok(n) => {
                &&& d >= 0 && n * 10 + d <= u64::MAX ==> long == Ok::<u64, String>((n * 10 + d) as u64)
                &&& d >= 0 && n * 10 + d > u64::MAX ==> (long matches Err(text) && text@
                    == "invalid "@ + "decimal"@ + " value `"@ + longer@ + "`: "@ + "number too large to fit in target type"@)
                &&& d < 0 ==> (long matches Err(text) && text@ == "invalid "@ + "decimal"@ + " value `"@ + longer@ + "`: "@ + "invalid digit found in string"@)
            },
            Err(message) => exists|reason: Seq<char>| #[trigger]
                ("invalid "@ + "decimal"@ + " value `"@ + raw@ + "`: "@ + reason) == message@ && (
                long matches Err(text) && text@ == "invalid "@ + "decimal"@ + " value `"@ + longer@
                    + "`: "@ + reason),
        },
{
    let body = raw@.skip(0);
    assert(longer@.skip(0) =~= body.push(c));
    lemma_unsigned_push(body, c, 10, u64::MAX as nat);
    assert(is_digit(c, 10) == (d >= 0));
    assert(d >= 0 ==> digit_value(c) == d);
    if raw@.len() == 1 && raw@[0] == '+' {
        assert(body =~= seq!['+']);
    }
    if body == seq!['+'] {
        assert(body.len() == 1 && body[0] == '+');
        assert(raw@[0] == body[0]);
    }
    if raw@.len() >= 1 {
        assert(longer@[0] == raw@[0]);
        if raw@.len() >= 2 {
            assert(longer@[1] == raw@[1]);
        }
    }
    if let Err(error) = unsigned(body, 10, u64::MAX as nat) {
        assert("invalid "@ + "decimal"@ + " value `"@ + raw@ + "`: "@ + error.text() == invalid(
            "decimal"@,
            raw@,
            error,
        ));
    }
}

/// A `u32` is the number that the text denotes where that fits in 32 bits. Where it does not, the
/// number is named, and where there is none, the message is the same.
pub proof fn a_u32_is_a_u64_that_fits(
    raw: &str,
    wide: Result<u64, String>,
    narrow: Result<u32, String>,
)
    requires
        call_ensures(parse_u64, (raw,), wide),
        call_ensures(parse_u32, (raw,), narrow),
    ensures
        match wide {
            Ok(n) => {
                &&& n <= 0xFFFF_FFFF ==> narrow == Ok::<u32, String>(n as u32)
                &&& n > 0xFFFF_FFFF ==> (narrow matches Err(text) && text@
                    == "value out of range for u32: "@ + digits(n as nat, 10))
            },
            Err(message) => narrow matches Err(text) && text@ == message@,
        },
{
}

/// A signed number grows by one digit at a time: away from zero, on the side of its sign. It is
/// refused where it leaves the range of 32 bits and where something else than a digit follows.
pub proof fn a_signed_number_grows_digit_by_digit(
    raw: &str,
    longer: &str,
    c: char,
    d: int,
    short: Result<i32, String>,
    long: Result<i32, String>,
)
    requires
        call_ensures(parse_i32, (raw,), short),
        call_ensures(parse_i32, (longer,), long),
        longer@ == raw@.push(c),
        ('0' <= c <= '9' && d == c as int - '0' as int) || (!('0' <= c <= '9') && d == -1),
    ensures
        raw@.len() == 0 ==> (short matches Err(text) && text@ == "invalid "@ + "i32"@ + " value `"@
            + raw@ + "`: "@ + "cannot parse integer from empty string"@),
        raw@.len() == 1 && (raw@[0] == '+' || raw@[0] == '-') ==> short is Err,
        raw@.len() == 0 || (raw@.len() == 1 && (raw@[0] == '+' || raw@[0] == '-')) ==> {
            &&& d >= 0 ==> long == Ok::<i32, String>(
                (if raw@.len() == 1 && raw@[0] == '-' {
                    -d
                } else {
                    d
                }) as i32,
            )
            &&& d < 0 ==> (long matches Err(text) && text@ == "invalid "@ + "i32"@ + " value `"@
                + longer@ + "`: "@ + "invalid digit found in string"@)
        },
        !(raw@.len() == 0 || (raw@.len() == 1 && (raw@[0] == '+' || raw@[0] == '-')))
            ==> match short {
            Ok(n) => {
                let grown: int = if raw@[0] == '-' {
                    n * 10 - d
                } else {
                    n * 10 + d
                };
                &&& d >= 0 && -0x8000_0000 <= grown <= 0x7FFF_FFFF ==> long == Ok::<i32, String>(
                    grown as i32,
                )
                &&& d >= 0 && grown > 0x7FFF_FFFF ==> (long matches Err(text) && text@
                    == "invalid "@ + "i32"@ + " value `"@ + longer@ + "`: "@
                    + "number too large to fit in target type"@)
                &&& d >= 0 && grown < -0x8000_0000 ==> (long matches Err(text) && text@
                    == "invalid "@ + "i32"@ + " value `"@ + longer@ + "`: "@
                    + "number too small to fit in target type"@)
                &&& d < 0 ==> (long matches Err(text) && text@ == "invalid "@ + "i32"@ + " value `"@
                    + longer@ + "`: "@ + "invalid digit found in string"@)
            },
            Err(message) => exists|reason: Seq<char>| #[trigger]
                ("invalid "@ + "i32"@ + " value `"@ + raw@ + "`: "@ + reason) == message@ && (
                long matches Err(text) && text@ == "invalid "@ + "i32"@ + " value `"@ + longer@
                    + "`: "@ + reason),
        },
{
    assert(is_digit(c, 10) == (d >= 0));
    assert(d >= 0 ==> digit_value(c) == d);
    if raw@.len() >= 1 {
        assert(longer@[0] == raw@[0]);
    }
    if raw@.len() >= 1 && raw@[0] == '-' {
        let body = raw@.drop_first();
        assert(longer@.drop_first() =~= body.push(c));
        lemma_magnitude_push(body, c, 10, 0x8000_0000);
        if raw@.len() == 1 {
            assert(body =~= Seq::empty());
            assert(body.take(0) =~= body);
            assert(raw@ != seq!['+']) by {
                assert(raw@[0] != seq!['+'][0]);
            }
            lemma_digit_run(raw@, 10, 0);
            assert(raw@.take(0) =~= Seq::empty());
        }
    } else {
        lemma_unsigned_push(raw@, c, 10, 0x7FFF_FFFF);
        if raw@.len() == 1 && raw@[0] == '+' {
            assert(raw@ =~= seq!['+']);
        }
        if raw@ == seq!['+'] {
            assert(raw@.len() == 1 && raw@[0] == '+');
        }
        if raw@.len() == 0 {
            assert(longer@[0] == c);
        }
    }
    if let Err(error) = signed(raw@) {
        assert("invalid "@ + "i32"@ + " value `"@ + raw@ + "`: "@ + error.text() == invalid(
            "i32"@,
            raw@,
            error,
        ));
    }
}

} // verus!
