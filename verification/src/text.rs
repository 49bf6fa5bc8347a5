//! Decimal rendering of unsigned integers.

use vstd::prelude::*;
use vstd::string::*;

verus! {

/// The character that stands for the digit `d`; `'0'` for anything above nine.
pub open spec fn digit_char(d: nat) -> char {
    if d == 1 {
        '1'
    } else if d == 2 {
        '2'
    } else if d == 3 {
        '3'
    } else if d == 4 {
        '4'
    } else if d == 5 {
        '5'
    } else if d == 6 {
        '6'
    } else if d == 7 {
        '7'
    } else if d == 8 {
        '8'
    } else if d == 9 {
        '9'
    } else {
        '0'
    }
}

/// The decimal numeral of `n`: most significant digit first, no leading zero
/// except for zero itself.
pub open spec fn decimal_digits(n: nat) -> Seq<char>
    decreases n,
{
    if n < 10 {
        seq![digit_char(n)]
    } else {
        decimal_digits(n / 10).push(digit_char(n % 10))
    }
}

/// The digits of `rest` followed by `tail`, where a `rest` of zero stands for
/// "nothing left to write".
spec fn digits_before(rest: nat, tail: Seq<char>) -> Seq<char> {
    if rest == 0 {
        tail
    } else {
        decimal_digits(rest) + tail
    }
}

fn digit_text(d: u64) -> (s: &'static str)
    requires
        d < 10,
    ensures
        s@ == seq![digit_char(d as nat)],
{
    proof {
        reveal_strlit("0");
        reveal_strlit("1");
        reveal_strlit("2");
        reveal_strlit("3");
        reveal_strlit("4");
        reveal_strlit("5");
        reveal_strlit("6");
        reveal_strlit("7");
        reveal_strlit("8");
        reveal_strlit("9");
    }
    let s: &'static str = if d == 0 {
        "0"
    } else if d == 1 {
        "1"
    } else if d == 2 {
        "2"
    } else if d == 3 {
        "3"
    } else if d == 4 {
        "4"
    } else if d == 5 {
        "5"
    } else if d == 6 {
        "6"
    } else if d == 7 {
        "7"
    } else if d == 8 {
        "8"
    } else {
        "9"
    };
    assert(s@ =~= seq![digit_char(d as nat)]);
    s
}

/// Writes `n` in decimal.
pub fn decimal(n: u64) -> (s: String)
    ensures
        s@ == decimal_digits(n as nat),
{
    let mut rest: u64 = n / 10;
    let mut out: String = String::from_str(digit_text(n % 10));
    proof {
        if n >= 10 {
            assert(decimal_digits(n as nat) =~= decimal_digits((n / 10) as nat) + out@);
        }
    }
    while rest > 0
        invariant
            decimal_digits(n as nat) == digits_before(rest as nat, out@),
        decreases rest,
    {
        let ghost before = out@;
        let d: u64 = rest % 10;
        out = String::from_str(digit_text(d)).concat(out.as_str());
        proof {
            assert(out@ =~= seq![digit_char(d as nat)] + before);
            if rest >= 10 {
                assert(decimal_digits(rest as nat) + before =~= decimal_digits((rest / 10) as nat)
                    + out@);
            } else {
                assert(decimal_digits(rest as nat) + before =~= out@);
            }
        }
        rest = rest / 10;
    }
    out
}

/// Writes a `usize` in decimal.
pub fn decimal_usize(n: usize) -> (s: String)
    ensures
        s@ == decimal_digits(n as nat),
{
    decimal(n as u64)
}

} // verus!
