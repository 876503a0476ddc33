//! Decimal rendering of integers, as it appears in the generated text.
//!
//! [`dec_nat`] is the mathematical definition of a non-negative number's
//! decimal digit sequence, most significant digit first; [`dec_i64`] extends
//! it with a leading minus sign. [`decimal_string`] computes the latter and is
//! proved exact against it.

use vstd::prelude::*;

verus! {

/// The decimal digit character for a value below ten.
pub open spec fn digit_char(d: nat) -> char {
    if d == 0 {
        '0'
    } else if d == 1 {
        '1'
    } else if d == 2 {
        '2'
    } else if d == 3 {
        '3'
    } else if d == 4 {
        '4'
    } else if d == 5 {
        '5'
    } else if d == 6 {
        '6'
    } else if d == 7 {
        '7'
    } else if d == 8 {
        '8'
    } else {
        '9'
    }
}

/// The decimal digits of `n`, most significant first, with no sign and no
/// leading zeros (a single `'0'` for zero).
pub open spec fn dec_nat(n: nat) -> Seq<char>
    decreases n,
{
    if n < 10 {
        seq![digit_char(n)]
    } else {
        dec_nat(n / 10).push(digit_char(n % 10))
    }
}

/// The decimal rendering of a signed value: a minus sign before the digits of
/// its magnitude when it is negative.
pub open spec fn dec_i64(v: i64) -> Seq<char> {
    if v < 0 {
        seq!['-'] + dec_nat((-(v as int)) as nat)
    } else {
        dec_nat(v as nat)
    }
}

/// A one-character string slice for a digit value.
fn digit_str(d: u64) -> (r: &'static str)
    requires
        d < 10,
    ensures
        r@ == seq![digit_char(d as nat)],
{
    proof {
        reveal_strlit("0");
        reveal_strlit("1");
        reveal_strlit("2");
        reveal_strlit("3");
        reveal_strlit("4");
        reveal_strlit("5");
        reveal_strlit("6");
        reveal_strlit("7");
        reveal_strlit("8");
        reveal_strlit("9");
    }
    let r: &'static str = if d == 0 {
        "0"
    } else if d == 1 {
        "1"
    } else if d == 2 {
        "2"
    } else if d == 3 {
        "3"
    } else if d == 4 {
        "4"
    } else if d == 5 {
        "5"
    } else if d == 6 {
        "6"
    } else if d == 7 {
        "7"
    } else if d == 8 {
        "8"
    } else {
        "9"
    };
    proof {
        assert(r@ =~= seq![digit_char(d as nat)]);
    }
    r
}

/// Appends the decimal digits of `n` to `s`.
fn push_dec_u64(s: &mut String, n: u64)
    ensures
        final(s)@ == old(s)@ + dec_nat(n as nat),
    decreases n,
{
    if n >= 10 {
        push_dec_u64(s, n / 10);
    }
    s.append(digit_str(n % 10));
    proof {
        assert(final(s)@ =~= old(s)@ + dec_nat(n as nat));
    }
}

/// Appends the decimal rendering of `v` to `s`, minus sign included.
pub fn push_dec_i64(s: &mut String, v: i64)
    ensures
        final(s)@ == old(s)@ + dec_i64(v),
{
    if v < 0 {
        proof {
            reveal_strlit("-");
        }
        s.append("-");
        let wide: i128 = v as i128;
        let magnitude: u64 = (-wide) as u64;
        push_dec_u64(s, magnitude);
        proof {
            assert(final(s)@ =~= old(s)@ + dec_i64(v));
        }
    } else {
        push_dec_u64(s, v as u64);
    }
}

/// The decimal rendering of `v` as a fresh string.
pub fn decimal_string(v: i64) -> (r: String)
    ensures
        r@ == dec_i64(v),
{
    let mut s = String::new();
    push_dec_i64(&mut s, v);
    s
}

} // verus!
