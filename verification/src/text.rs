//! Decimal rendering of integers, verified against a sequence-level
//! specification of the decimal representation.

use vstd::prelude::*;

verus! {

/// The character for one decimal digit value.
pub open spec fn digit_char(d: nat) -> char {
    if d == 0 {
        '0'
    } else if d == 1 {
        '1'
    } else if d == 2 {
        '2'
    } else if d == 3 {
        '3'
    } else if d == 4 {
        '4'
    } else if d == 5 {
        '5'
    } else if d == 6 {
        '6'
    } else if d == 7 {
        '7'
    } else if d == 8 {
        '8'
    } else {
        '9'
    }
}

/// The decimal representation of a natural number, most significant digit
/// first, with no leading zeroes (and `0` itself rendered as "0").
pub open spec fn dec_rep(n: nat) -> Seq<char>
    decreases n,
{
    if n < 10 {
        seq![digit_char(n)]
    } else {
        dec_rep(n / 10).push(digit_char(n % 10))
    }
}

/// The decimal representation of an integer: a leading minus sign when the
/// value is negative.
pub open spec fn int_rep(i: int) -> Seq<char> {
    if i < 0 {
        seq!['-'] + dec_rep((-i) as nat)
    } else {
        dec_rep(i as nat)
    }
}

/// Relies on String::push: appends exactly the one given character.
#[verifier::external_body]
pub(crate) fn push_char(s: &mut String, c: char)
    ensures
        final(s)@ == old(s)@.push(c),
{
    s.push(c);
}

fn digit_to_char(d: u8) -> (c: char)
    requires
        d < 10,
    ensures
        c == digit_char(d as nat),
{
    if d == 0 {
        '0'
    } else if d == 1 {
        '1'
    } else if d == 2 {
        '2'
    } else if d == 3 {
        '3'
    } else if d == 4 {
        '4'
    } else if d == 5 {
        '5'
    } else if d == 6 {
        '6'
    } else if d == 7 {
        '7'
    } else if d == 8 {
        '8'
    } else {
        '9'
    }
}

/// Appends the decimal digits of `m` to `out`.
pub(crate) fn push_decimal(out: &mut String, m: u128)
    ensures
        final(out)@ == old(out)@ + dec_rep(m as nat),
    decreases m,
{
    let d: u8 = (m % 10) as u8;
    if m < 10 {
        push_char(out, digit_to_char(d));
        proof {
            assert(out@ =~= old(out)@ + dec_rep(m as nat));
        }
    } else {
        push_decimal(out, m / 10);
        push_char(out, digit_to_char(d));
        proof {
            assert(out@ =~= old(out)@ + dec_rep(m as nat));
        }
    }
}

/// Appends the decimal representation of `n` to `out`, with a minus sign
/// for negative values.
pub(crate) fn push_int(out: &mut String, n: i128)
    requires
        i128::MIN < n,
    ensures
        final(out)@ == old(out)@ + int_rep(n as int),
{
    if n < 0 {
        push_char(out, '-');
        push_decimal(out, (-n) as u128);
        proof {
            assert(out@ =~= old(out)@ + int_rep(n as int));
        }
    } else {
        push_decimal(out, n as u128);
    }
}

} // verus!
