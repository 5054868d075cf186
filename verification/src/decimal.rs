//! Numbers written out in decimal digits.

use vstd::prelude::*;
use vstd::string::StringExecFns;

verus! {

/// The digit `d`, written out.
pub open spec fn digit_text(d: nat) -> Seq<char> {
    if d == 0 {
        "0"@
    } else if d == 1 {
        "1"@
    } else if d == 2 {
        "2"@
    } else if d == 3 {
        "3"@
    } else if d == 4 {
        "4"@
    } else if d == 5 {
        "5"@
    } else if d == 6 {
        "6"@
    } else if d == 7 {
        "7"@
    } else if d == 8 {
        "8"@
    } else {
        "9"@
    }
}

/// The number `n` in decimal digits, without leading zeros.
pub open spec fn decimal(n: nat) -> Seq<char>
    decreases n,
{
    if n < 10 {
        digit_text(n)
    } else {
        decimal(n / 10) + digit_text(n % 10)
    }
}

/// The digit `d`, written out.
fn digit(d: u64) -> (text: &'static str)
    requires
        d < 10,
    ensures
        text@ == digit_text(d as nat),
{
    if d == 0 {
        "0"
    } else if d == 1 {
        "1"
    } else if d == 2 {
        "2"
    } else if d == 3 {
        "3"
    } else if d == 4 {
        "4"
    } else if d == 5 {
        "5"
    } else if d == 6 {
        "6"
    } else if d == 7 {
        "7"
    } else if d == 8 {
        "8"
    } else {
        "9"
    }
}

/// Writes `n` in decimal digits.
pub fn to_decimal(n: u64) -> (text: String)
    ensures
        text@ == decimal(n as nat),
{
    let mut rest: u64 = n / 10;
    let mut text = String::from_str(digit(n % 10));
    while rest > 0
        invariant
            decimal(n as nat) == if rest == 0 {
                text@
            } else {
                decimal(rest as nat) + text@
            },
        decreases rest,
    {
        let mut longer = String::from_str(digit(rest % 10));
        longer.append(text.as_str());
        proof {
            if rest >= 10 {
                assert(decimal(rest as nat) + text@ =~= decimal((rest / 10) as nat) + longer@);
            }
        }
        text = longer;
        rest = rest / 10;
    }
    text
}

} // verus!
