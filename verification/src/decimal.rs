//! Decimal rendering of unsigned integers, used by the error messages and
//! the query-string builders.

use vstd::prelude::*;
use vstd::string::*;

verus! {

/// The character for one decimal digit.
pub open spec fn decimal_digit(d: int) -> char {
    if d == 0 {
        '0'
    } else if d == 1 {
        '1'
    } else if d == 2 {
        '2'
    } else if d == 3 {
        '3'
    } else if d == 4 {
        '4'
    } else if d == 5 {
        '5'
    } else if d == 6 {
        '6'
    } else if d == 7 {
        '7'
    } else if d == 8 {
        '8'
    } else {
        '9'
    }
}

/// The usual decimal rendering of `n`, without leading zeroes.
pub open spec fn spec_decimal(n: nat) -> Seq<char>
    decreases n,
{
    if n < 10 {
        seq![decimal_digit(n as int)]
    } else {
        spec_decimal(n / 10).push(decimal_digit((n % 10) as int))
    }
}

fn digit_str(d: u64) -> (s: &'static str)
    requires
        d < 10,
    ensures
        s@ == seq![decimal_digit(d as int)],
{
    proof {
        reveal_strlit("0");
        reveal_strlit("1");
        reveal_strlit("2");
        reveal_strlit("3");
        reveal_strlit("4");
        reveal_strlit("5");
        reveal_strlit("6");
        reveal_strlit("7");
        reveal_strlit("8");
        reveal_strlit("9");
    }
    let s = match d {
        0 => "0",
        1 => "1",
        2 => "2",
        3 => "3",
        4 => "4",
        5 => "5",
        6 => "6",
        7 => "7",
        8 => "8",
        _ => "9",
    };
    proof {
        assert(s@ =~= seq![decimal_digit(d as int)]);
    }
    s
}

/// Renders `n` in decimal.
pub fn u64_to_decimal(n: u64) -> (s: String)
    ensures
        s@ == spec_decimal(n as nat),
{
    let mut digits: Vec<u64> = Vec::new();
    let mut m = n;
    while m >= 10
        invariant
            forall|t: int| 0 <= t < digits@.len() ==> #[trigger] digits@[t] < 10,
            spec_decimal(n as nat) =~= spec_decimal(m as nat) + Seq::new(
                digits@.len(),
                |t: int| decimal_digit(digits@[digits@.len() - 1 - t] as int),
            ),
        decreases m,
    {
        let ghost prev = digits@;
        digits.push(m % 10);
        proof {
            assert(spec_decimal(m as nat) == spec_decimal((m as nat) / 10).push(
                decimal_digit(((m as nat) % 10) as int),
            ));
            assert(spec_decimal((m as nat) / 10) + Seq::new(
                digits@.len(),
                |t: int| decimal_digit(digits@[digits@.len() - 1 - t] as int),
            ) =~= spec_decimal(m as nat) + Seq::new(
                prev.len(),
                |t: int| decimal_digit(prev[prev.len() - 1 - t] as int),
            ));
        }
        m = m / 10;
    }
    let mut s = String::new();
    s.append(digit_str(m));
    let mut i = digits.len();
    while i > 0
        invariant
            m < 10,
            forall|t: int| 0 <= t < digits@.len() ==> #[trigger] digits@[t] < 10,
            i <= digits@.len(),
            s@ =~= spec_decimal(m as nat) + Seq::new(
                (digits@.len() - i) as nat,
                |t: int| decimal_digit(digits@[digits@.len() - 1 - t] as int),
            ),
            spec_decimal(n as nat) =~= spec_decimal(m as nat) + Seq::new(
                digits@.len(),
                |t: int| decimal_digit(digits@[digits@.len() - 1 - t] as int),
            ),
        decreases i,
    {
        i = i - 1;
        s.append(digit_str(digits[i]));
        proof {
            assert(s@ =~= spec_decimal(m as nat) + Seq::new(
                (digits@.len() - i) as nat,
                |t: int| decimal_digit(digits@[digits@.len() - 1 - t] as int),
            ));
        }
    }
    proof {
        assert(s@ =~= spec_decimal(n as nat));
    }
    s
}

} // verus!
