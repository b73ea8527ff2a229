//! Decimal notation for the numbers that error messages quote.

use vstd::prelude::*;
use vstd::string::StringExecFns;

use crate::decimal::{magnitude, Decimal, SCALE};

verus! {

/// The character that stands for a single decimal digit.
pub open spec fn digit(d: int) -> char
    recommends
        0 <= d < 10,
{
    if d == 0 {
        '0'
    } else if d == 1 {
        '1'
    } else if d == 2 {
        '2'
    } else if d == 3 {
        '3'
    } else if d == 4 {
        '4'
    } else if d == 5 {
        '5'
    } else if d == 6 {
        '6'
    } else if d == 7 {
        '7'
    } else if d == 8 {
        '8'
    } else {
        '9'
    }
}

/// A natural number in decimal notation, without leading zeros.
pub open spec fn natural_text(n: nat) -> Seq<char>
    decreases n,
{
    if n < 10 {
        seq![digit(n as int)]
    } else {
        natural_text(n / 10).push(digit((n % 10) as int))
    }
}

/// An integer in decimal notation, with a minus sign where it is negative.
pub open spec fn integer_text(n: int) -> Seq<char> {
    if n < 0 {
        seq!['-'] + natural_text((-n) as nat)
    } else {
        natural_text(n as nat)
    }
}

/// The last `places` decimal digits of `n`, with leading zeros kept.
pub open spec fn padded_text(n: nat, places: nat) -> Seq<char>
    decreases places,
{
    if places == 0 {
        Seq::empty()
    } else {
        padded_text(n / 10, (places - 1) as nat).push(digit((n % 10) as int))
    }
}

/// A decimal in positional notation with all nine fractional digits, or
/// `NaN`.
pub open spec fn decimal_text(d: Decimal) -> Seq<char> {
    match d {
        Decimal::Finite(u) => {
            let m = magnitude(u as int);
            let sign = if u < 0 {
                seq!['-']
            } else {
                Seq::empty()
            };
            sign + natural_text((m / (SCALE as int)) as nat) + seq!['.'] + padded_text(
                (m % (SCALE as int)) as nat,
                9,
            )
        },
        Decimal::Nan => seq!['N', 'a', 'N'],
    }
}

/// The one-character string for a decimal digit.
fn digit_str(d: u64) -> (s: &'static str)
    requires
        d < 10,
    ensures
        s@ == seq![digit(d as int)],
{
    proof {
        reveal_strlit("0");
        reveal_strlit("1");
        reveal_strlit("2");
        reveal_strlit("3");
        reveal_strlit("4");
        reveal_strlit("5");
        reveal_strlit("6");
        reveal_strlit("7");
        reveal_strlit("8");
        reveal_strlit("9");
    }
    let s = if d == 0 {
        "0"
    } else if d == 1 {
        "1"
    } else if d == 2 {
        "2"
    } else if d == 3 {
        "3"
    } else if d == 4 {
        "4"
    } else if d == 5 {
        "5"
    } else if d == 6 {
        "6"
    } else if d == 7 {
        "7"
    } else if d == 8 {
        "8"
    } else {
        "9"
    };
    assert(s@ =~= seq![digit(d as int)]);
    s
}

/// Appends a natural number in decimal notation.
fn push_natural(out: &mut String, n: u64)
    ensures
        final(out)@ == old(out)@ + natural_text(n as nat),
    decreases n,
{
    if n >= 10 {
        push_natural(out, n / 10);
    }
    out.append(digit_str(n % 10));
    assert(out@ =~= old(out)@ + natural_text(n as nat));
}

/// Appends the last `places` decimal digits of `n`.
fn push_padded(out: &mut String, n: u64, places: u8)
    ensures
        final(out)@ == old(out)@ + padded_text(n as nat, places as nat),
    decreases places,
{
    if places > 0 {
        push_padded(out, n / 10, places - 1);
        out.append(digit_str(n % 10));
    }
    assert(out@ =~= old(out)@ + padded_text(n as nat, places as nat));
}

/// An integer in decimal notation.
pub fn integer_string(n: i64) -> (s: String)
    ensures
        s@ == integer_text(n as int),
{
    let mut out = String::new();
    if n < 0 {
        proof {
            reveal_strlit("-");
        }
        out.append("-");
        push_natural(&mut out, (-(n as i128)) as u64);
    } else {
        push_natural(&mut out, n as u64);
    }
    assert(out@ =~= integer_text(n as int));
    out
}

/// A decimal in positional notation with all nine fractional digits, or
/// `NaN`.
pub fn decimal_string(d: Decimal) -> (s: String)
    ensures
        s@ == decimal_text(d),
{
    let mut out = String::new();
    match d {
        Decimal::Finite(u) => {
            proof {
                reveal_strlit("-");
                reveal_strlit(".");
            }
            let m: u64 = if u < 0 {
                out.append("-");
                (-(u as i128)) as u64
            } else {
                u as u64
            };
            push_natural(&mut out, m / (SCALE as u64));
            out.append(".");
            push_padded(&mut out, m % (SCALE as u64), 9);
        },
        Decimal::Nan => {
            proof {
                reveal_strlit("NaN");
            }
            out.append("NaN");
        },
    }
    assert(out@ =~= decimal_text(d));
    out
}

} // verus!
