//! Decimal rendering of integers as verified `String` building blocks.
//!
//! Item identifiers, the status line and extraction summaries all embed
//! numbers in text.  The spec-level decimal form of a number is defined here
//! once, and the executable builders are proved to produce exactly it.

use vstd::prelude::*;

verus! {

/// The decimal digit character for a value below ten.
pub open spec fn digit_char(d: nat) -> char {
    if d == 0 {
        '0'
    } else if d == 1 {
        '1'
    } else if d == 2 {
        '2'
    } else if d == 3 {
        '3'
    } else if d == 4 {
        '4'
    } else if d == 5 {
        '5'
    } else if d == 6 {
        '6'
    } else if d == 7 {
        '7'
    } else if d == 8 {
        '8'
    } else {
        '9'
    }
}

/// The usual decimal representation of a natural number, most significant
/// digit first, with no leading zeros (and `"0"` for zero).
pub open spec fn dec_rep(n: nat) -> Seq<char>
    decreases n,
{
    if n < 10 {
        seq![digit_char(n)]
    } else {
        dec_rep(n / 10) + seq![digit_char(n % 10)]
    }
}

/// The decimal representation of a signed number: a minus sign in front of
/// the magnitude when negative.
pub open spec fn dec_rep_signed(n: int) -> Seq<char> {
    if n >= 0 {
        dec_rep(n as nat)
    } else {
        seq!['-'] + dec_rep((-n) as nat)
    }
}

/// Appends one decimal digit character to `s`.
fn push_digit_char(s: &mut String, d: u64)
    requires
        d < 10,
    ensures
        final(s)@ == old(s)@ + seq![digit_char(d as nat)],
{
    proof {
        reveal_strlit("0");
        reveal_strlit("1");
        reveal_strlit("2");
        reveal_strlit("3");
        reveal_strlit("4");
        reveal_strlit("5");
        reveal_strlit("6");
        reveal_strlit("7");
        reveal_strlit("8");
        reveal_strlit("9");
    }
    if d == 0 {
        s.append("0");
    } else if d == 1 {
        s.append("1");
    } else if d == 2 {
        s.append("2");
    } else if d == 3 {
        s.append("3");
    } else if d == 4 {
        s.append("4");
    } else if d == 5 {
        s.append("5");
    } else if d == 6 {
        s.append("6");
    } else if d == 7 {
        s.append("7");
    } else if d == 8 {
        s.append("8");
    } else {
        s.append("9");
    }
}

/// Appends the decimal representation of `n` to `s`.
pub fn push_dec_u64(s: &mut String, n: u64)
    ensures
        final(s)@ == old(s)@ + dec_rep(n as nat),
    decreases n,
{
    if n < 10 {
        push_digit_char(s, n);
    } else {
        push_dec_u64(s, n / 10);
        push_digit_char(s, n % 10);
        proof {
            assert(old(s)@ + dec_rep((n / 10) as nat) + seq![digit_char((n % 10) as nat)]
                =~= old(s)@ + dec_rep(n as nat));
        }
    }
}

/// Appends the decimal representation of a signed number to `s`.
pub fn push_dec_i64(s: &mut String, n: i64)
    ensures
        final(s)@ == old(s)@ + dec_rep_signed(n as int),
{
    proof {
        reveal_strlit("-");
    }
    if n >= 0 {
        push_dec_u64(s, n as u64);
    } else {
        s.append("-");
        let m: u64 = if n == i64::MIN {
            9223372036854775808u64
        } else {
            (-n) as u64
        };
        push_dec_u64(s, m);
        proof {
            assert(old(s)@ + "-"@ + dec_rep(m as nat) =~= old(s)@ + dec_rep_signed(n as int));
        }
    }
}

/// The decimal representation of `n`, as a fresh string.
pub fn u64_to_string(n: u64) -> (r: String)
    ensures
        r@ == dec_rep(n as nat),
{
    let mut s = String::new();
    push_dec_u64(&mut s, n);
    proof {
        assert(Seq::<char>::empty() + dec_rep(n as nat) =~= dec_rep(n as nat));
    }
    s
}

/// The decimal representation of the signed `n`, as a fresh string.
pub fn i64_to_string(n: i64) -> (r: String)
    ensures
        r@ == dec_rep_signed(n as int),
{
    let mut s = String::new();
    push_dec_i64(&mut s, n);
    proof {
        assert(Seq::<char>::empty() + dec_rep_signed(n as int) =~= dec_rep_signed(n as int));
    }
    s
}

} // verus!
