//! Decimal notation of natural numbers.

use vstd::prelude::*;
use vstd::string::StringExecFns;

verus! {

/// The character that denotes the digit `d`.
pub open spec fn digit_char(d: nat) -> char
    recommends
        d < 10,
{
    if d == 0 {
        '0'
    } else if d == 1 {
        '1'
    } else if d == 2 {
        '2'
    } else if d == 3 {
        '3'
    } else if d == 4 {
        '4'
    } else if d == 5 {
        '5'
    } else if d == 6 {
        '6'
    } else if d == 7 {
        '7'
    } else if d == 8 {
        '8'
    } else {
        '9'
    }
}

/// The decimal notation of `n`: most significant digit first, no leading
/// zero, and the single digit `0` for zero.
pub open spec fn decimal_text(n: nat) -> Seq<char>
    decreases n,
{
    if n < 10 {
        seq![digit_char(n)]
    } else {
        decimal_text(n / 10).push(digit_char(n % 10))
    }
}

/// The digit `d` as a string of one character.
fn digit_str(d: usize) -> (s: &'static str)
    requires
        d < 10,
    ensures
        s@ == seq![digit_char(d as nat)],
{
    proof {
        reveal_strlit("0");
        reveal_strlit("1");
        reveal_strlit("2");
        reveal_strlit("3");
        reveal_strlit("4");
        reveal_strlit("5");
        reveal_strlit("6");
        reveal_strlit("7");
        reveal_strlit("8");
        reveal_strlit("9");
    }
    if d == 0 {
        "0"
    } else if d == 1 {
        "1"
    } else if d == 2 {
        "2"
    } else if d == 3 {
        "3"
    } else if d == 4 {
        "4"
    } else if d == 5 {
        "5"
    } else if d == 6 {
        "6"
    } else if d == 7 {
        "7"
    } else if d == 8 {
        "8"
    } else {
        "9"
    }
}

/// Writes `n` in decimal notation.
pub fn usize_to_decimal(n: usize) -> (text: String)
    ensures
        text@ == decimal_text(n as nat),
{
    let mut text: String = String::from_str(digit_str(n % 10));
    let mut rest: usize = n / 10;
    let ghost mut written: Seq<char> = seq![digit_char((n % 10) as nat)];
    while rest > 0
        invariant
            text@ == written,
            decimal_text(n as nat) == if rest == 0 {
                written
            } else {
                decimal_text(rest as nat) + written
            },
        decreases rest,
    {
        let head: String = String::from_str(digit_str(rest % 10));
        proof {
            let digit = seq![digit_char((rest % 10) as nat)];
            if rest >= 10 {
                assert(decimal_text(rest as nat) + written =~= decimal_text((rest / 10) as nat)
                    + (digit + written));
            } else {
                assert(decimal_text(rest as nat) + written =~= digit + written);
            }
            written = digit + written;
        }
        text = head.concat(text.as_str());
        rest = rest / 10;
    }
    text
}

} // verus!
