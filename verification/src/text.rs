//! Text of the numbers that the debugger prints.

#[allow(unused_imports)]
use vstd::arithmetic::power2::{
    lemma2_to64, lemma_pow2_adds, lemma_pow2_strictly_increases, pow2,
};
use vstd::prelude::*;

verus! {

/// The character of one digit: `0..9`, then `a..f`.
pub open spec fn digit_char(d: nat) -> char {
    seq!['0', '1', '2', '3', '4', '5', '6', '7', '8', '9', 'a', 'b', 'c', 'd', 'e', 'f'][d as int]
}

/// A natural number in positional notation, most significant digit first, without leading zeros.
pub open spec fn digits(n: nat, radix: nat) -> Seq<char>
    decreases n,
{
    if radix < 2 || n < radix {
        seq![digit_char(n)]
    } else {
        proof {
            assert(n / radix < n) by (nonlinear_arith)
                requires
                    n >= radix,
                    radix >= 2,
            ;
        }
        digits(n / radix, radix).push(digit_char(n % radix))
    }
}

/// An integer in decimal notation, with a leading `-` where it is negative.
pub open spec fn decimal(n: int) -> Seq<char> {
    if n < 0 {
        seq!['-'] + digits((-n) as nat, 10)
    } else {
        digits(n as nat, 10)
    }
}

/// `text` with zeros in front of it, as many as it takes to be `width` characters long.
pub open spec fn zero_padded(text: Seq<char>, width: nat) -> Seq<char> {
    if text.len() < width {
        Seq::new((width - text.len()) as nat, |i: int| '0') + text
    } else {
        text
    }
}

/// The text of one digit.
fn digit_text(d: u64) -> (text: &'static str)
    requires
        d < 16,
    ensures
        text@ == seq![digit_char(d as nat)],
{
    proof {
        reveal_strlit("0");
        reveal_strlit("1");
        reveal_strlit("2");
        reveal_strlit("3");
        reveal_strlit("4");
        reveal_strlit("5");
        reveal_strlit("6");
        reveal_strlit("7");
        reveal_strlit("8");
        reveal_strlit("9");
        reveal_strlit("a");
        reveal_strlit("b");
        reveal_strlit("c");
        reveal_strlit("d");
        reveal_strlit("e");
        reveal_strlit("f");
    }
    match d {
        0 => "0",
        1 => "1",
        2 => "2",
        3 => "3",
        4 => "4",
        5 => "5",
        6 => "6",
        7 => "7",
        8 => "8",
        9 => "9",
        10 => "a",
        11 => "b",
        12 => "c",
        13 => "d",
        14 => "e",
        _ => "f",
    }
}

/// Append `n` in the given radix.
pub fn append_digits(out: &mut String, n: u64, radix: u64)
    requires
        2 <= radix <= 16,
    ensures
        final(out)@ == old(out)@ + digits(n as nat, radix as nat),
    decreases n,
{
    if n >= radix {
        assert(n / radix < n) by (nonlinear_arith)
            requires
                n >= radix,
                radix >= 2,
        ;
        append_digits(out, n / radix, radix);
    }
    assert(n % radix < radix) by (nonlinear_arith)
        requires
            radix >= 2,
    ;
    assert(n < radix ==> n % radix == n) by (nonlinear_arith)
        requires
            radix >= 2,
    ;
    out.append(digit_text(n % radix));
    assert(out@ =~= old(out)@ + digits(n as nat, radix as nat));
}

/// Append `n` in decimal.
pub fn append_decimal(out: &mut String, n: i64)
    ensures
        final(out)@ == old(out)@ + decimal(n as int),
{
    if n < 0 {
        proof {
            reveal_strlit("-");
        }
        out.append("-");
        append_digits(out, if n == i64::MIN { 0x8000_0000_0000_0000 } else { (-n) as u64 }, 10);
        assert(out@ =~= old(out)@ + decimal(n as int));
    } else {
        append_digits(out, n as u64, 10);
    }
}

/// Append `n` in the given radix, with zeros in front of it up to `width` characters.
pub fn append_padded(out: &mut String, n: u64, radix: u64, width: usize)
    requires
        2 <= radix <= 16,
    ensures
        final(out)@ == old(out)@ + zero_padded(digits(n as nat, radix as nat), width as nat),
    decreases width,
{
    if width <= 1 {
        append_digits(out, n, radix);
    } else {
        append_padded(out, n / radix, radix, width - 1);
        assert(n % radix < radix) by (nonlinear_arith)
            requires
                radix >= 2,
        ;
        out.append(digit_text(n % radix));
        proof {
            lemma_padded_step(n as nat, radix as nat, width as nat);
        }
        assert(out@ =~= old(out)@ + zero_padded(digits(n as nat, radix as nat), width as nat));
    }
}

/// The last digit of a padded number stands behind its other digits, padded one narrower.
proof fn lemma_padded_step(n: nat, radix: nat, width: nat)
    requires
        2 <= radix,
        width >= 2,
    ensures
        zero_padded(digits(n, radix), width) == zero_padded(
            digits(n / radix, radix),
            (width - 1) as nat,
        ).push(digit_char(n % radix)),
{
    let left = zero_padded(digits(n, radix), width);
    let right = zero_padded(digits(n / radix, radix), (width - 1) as nat).push(
        digit_char(n % radix),
    );
    if n < radix {
        assert(n / radix == 0 && n % radix == n) by (nonlinear_arith)
            requires
                n < radix,
        ;
        assert(digits(0, radix) == seq![digit_char(0)]);
    }
    assert(left =~= right);
}

/// Half a byte is one digit: a number of `bits` bits has no more than `(bits + 3) / 4` digits in
/// hexadecimal.
pub proof fn hex_digits_fit(n: nat, bits: nat)
    requires
        bits >= 1,
        n < pow2(bits),
    ensures
        digits(n, 16).len() <= (bits + 3) / 4,
    decreases bits,
{
    if n >= 16 {
        assert(bits > 4) by {
            lemma2_to64();
            if bits < 4 {
                lemma_pow2_strictly_increases(bits, 4);
            }
        }
        assert(n / 16 < pow2((bits - 4) as nat)) by {
            lemma2_to64();
            lemma_pow2_adds(4, (bits - 4) as nat);
        }
        hex_digits_fit(n / 16, (bits - 4) as nat);
    }
}

} // verus!
