//! Decimal text of numbers.

use vstd::prelude::*;
use vstd::string::*;

verus! {

/// The decimal digit character for `d` in `0..10`.
pub open spec fn digit_char(d: int) -> char {
    (48 + d) as char
}

/// The one-character text of the digit `d`.
pub fn digit_str(d: u32) -> (res: &'static str)
    requires
        d < 10,
    ensures
        res@ == seq![digit_char(d as int)],
{
    proof {
        reveal_strlit("0");
        reveal_strlit("1");
        reveal_strlit("2");
        reveal_strlit("3");
        reveal_strlit("4");
        reveal_strlit("5");
        reveal_strlit("6");
        reveal_strlit("7");
        reveal_strlit("8");
        reveal_strlit("9");
    }
    if d == 0 {
        "0"
    } else if d == 1 {
        "1"
    } else if d == 2 {
        "2"
    } else if d == 3 {
        "3"
    } else if d == 4 {
        "4"
    } else if d == 5 {
        "5"
    } else if d == 6 {
        "6"
    } else if d == 7 {
        "7"
    } else if d == 8 {
        "8"
    } else {
        "9"
    }
}

/// The decimal digits of `m`, without leading zeros.
pub open spec fn decimal_digits(m: nat) -> Seq<char>
    decreases m,
{
    if m < 10 {
        seq![digit_char(m as int)]
    } else {
        decimal_digits(m / 10).push(digit_char((m % 10) as int))
    }
}

/// The decimal text of `n`, with a leading `-` when it is negative, as
/// `n.to_string()` writes it.
pub open spec fn decimal_text(n: int) -> Seq<char> {
    if n < 0 {
        seq!['-'] + decimal_digits((-n) as nat)
    } else {
        decimal_digits(n as nat)
    }
}

/// Appends the decimal digits of `m`.
fn append_digits(res: &mut String, m: u64)
    ensures
        final(res)@ == old(res)@ + decimal_digits(m as nat),
    decreases m,
{
    if m >= 10 {
        append_digits(res, m / 10);
    }
    res.append(digit_str((m % 10) as u32));
    proof {
        assert(final(res)@ =~= old(res)@ + decimal_digits(m as nat)) by {
            if m >= 10 {
                assert(decimal_digits(m as nat) == decimal_digits((m / 10) as nat).push(digit_char((m % 10) as int)));
            }
        }
    }
}

/// The decimal text of `n`.
pub fn i64_to_string(n: i64) -> (res: String)
    ensures
        res@ == decimal_text(n as int),
{
    let mut res = String::new();
    if n < 0 {
        res.append("-");
        proof {
            reveal_strlit("-");
        }
        let m: u64 = if n == i64::MIN {
            9_223_372_036_854_775_808u64
        } else {
            (-n) as u64
        };
        append_digits(&mut res, m);
        assert(res@ =~= decimal_text(n as int));
    } else {
        append_digits(&mut res, n as u64);
        assert(res@ =~= decimal_text(n as int));
    }
    res
}

} // verus!
