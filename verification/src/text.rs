//! Decimal rendering of integers into strings, verified against a
//! mathematical decimal-representation spec.

use vstd::prelude::*;

verus! {

/// The character for a single decimal digit value.
pub open spec fn dec_digit(d: nat) -> char {
    if d == 0 {
        '0'
    } else if d == 1 {
        '1'
    } else if d == 2 {
        '2'
    } else if d == 3 {
        '3'
    } else if d == 4 {
        '4'
    } else if d == 5 {
        '5'
    } else if d == 6 {
        '6'
    } else if d == 7 {
        '7'
    } else if d == 8 {
        '8'
    } else {
        '9'
    }
}

/// The decimal representation of a natural number, most significant digit
/// first, with no leading zeros (and a single '0' for zero itself).
pub open spec fn dec_rep(n: nat) -> Seq<char>
    decreases n,
{
    if n < 10 {
        seq![dec_digit(n)]
    } else {
        dec_rep(n / 10).push(dec_digit(n % 10))
    }
}

/// The decimal representation of a signed number: a leading '-' before the
/// magnitude when negative.
pub open spec fn dec_rep_signed(n: int) -> Seq<char> {
    if n < 0 {
        seq!['-'] + dec_rep((-n) as nat)
    } else {
        dec_rep(n as nat)
    }
}

/// A one-character string for a decimal digit value.
fn digit_str(d: u32) -> (r: &'static str)
    requires
        d < 10,
    ensures
        r@ == seq![dec_digit(d as nat)],
{
    proof {
        reveal_strlit("0");
        reveal_strlit("1");
        reveal_strlit("2");
        reveal_strlit("3");
        reveal_strlit("4");
        reveal_strlit("5");
        reveal_strlit("6");
        reveal_strlit("7");
        reveal_strlit("8");
        reveal_strlit("9");
    }
    let r: &'static str = if d == 0 {
        "0"
    } else if d == 1 {
        "1"
    } else if d == 2 {
        "2"
    } else if d == 3 {
        "3"
    } else if d == 4 {
        "4"
    } else if d == 5 {
        "5"
    } else if d == 6 {
        "6"
    } else if d == 7 {
        "7"
    } else if d == 8 {
        "8"
    } else {
        "9"
    };
    proof {
        assert(r@ =~= seq![dec_digit(d as nat)]);
    }
    r
}

/// Appends the decimal representation of `n` to `s`.
pub fn push_dec(s: &mut String, n: u32)
    ensures
        final(s)@ == old(s)@ + dec_rep(n as nat),
    decreases n,
{
    if n >= 10 {
        push_dec(s, n / 10);
    }
    s.append(digit_str(n % 10));
    proof {
        if n < 10 {
            assert(n % 10 == n);
        }
        assert(s@ =~= old(s)@ + dec_rep(n as nat));
    }
}

/// Appends the decimal representation of a signed number to `s`.
pub fn push_dec_signed(s: &mut String, n: i32)
    ensures
        final(s)@ == old(s)@ + dec_rep_signed(n as int),
{
    if n < 0 {
        s.append("-");
        let magnitude: u32 = (-(n as i64)) as u32;
        assert(magnitude == -(n as int));
        push_dec(s, magnitude);
        proof {
            assert(("-")@ =~= seq!['-']) by {
                reveal_strlit("-");
            }
            assert(s@ =~= old(s)@ + dec_rep_signed(n as int));
        }
    } else {
        push_dec(s, n as u32);
    }
}

/// The decimal representation of `n` as a fresh string.
pub fn dec_string(n: u32) -> (r: String)
    ensures
        r@ == dec_rep(n as nat),
{
    let mut s = String::new();
    push_dec(&mut s, n);
    proof {
        assert(s@ =~= dec_rep(n as nat));
    }
    s
}

} // verus!
