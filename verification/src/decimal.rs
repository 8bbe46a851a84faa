//! Decimal rendering of unsigned integers, as the flashing tool expects the
//! baud rate on its command line.

use vstd::prelude::*;
use vstd::string::*;

verus! {

/// The character that stands for the digit `d`; meaningful for `d < 10`.
pub open spec fn digit_char(d: nat) -> char {
    if d == 0 {
        '0'
    } else if d == 1 {
        '1'
    } else if d == 2 {
        '2'
    } else if d == 3 {
        '3'
    } else if d == 4 {
        '4'
    } else if d == 5 {
        '5'
    } else if d == 6 {
        '6'
    } else if d == 7 {
        '7'
    } else if d == 8 {
        '8'
    } else {
        '9'
    }
}

/// The shortest decimal numeral of `n`: no sign, no leading zero, and the
/// single digit `0` for zero.
pub open spec fn decimal_text(n: nat) -> Seq<char>
    decreases n,
{
    if n < 10 {
        seq![digit_char(n)]
    } else {
        decimal_text(n / 10).push(digit_char(n % 10))
    }
}

/// The digits of `n` that are still to be written in front of the ones
/// already produced: nothing once `n` has reached zero.
pub open spec fn leading_digits(n: nat) -> Seq<char> {
    if n == 0 {
        Seq::empty()
    } else {
        decimal_text(n)
    }
}

/// Splitting off the last digit: the numeral of `n` is what is still to be
/// written for `n / 10`, followed by the digit `n % 10`.
pub proof fn lemma_decimal_text_split(n: nat)
    ensures
        decimal_text(n) == leading_digits(n / 10).push(digit_char(n % 10)),
{
    if n < 10 {
        assert(n / 10 == 0);
        assert(n % 10 == n);
        assert(decimal_text(n) =~= Seq::<char>::empty().push(digit_char(n)));
    }
}

/// The one-character text of a digit.
fn digit_str(d: u32) -> (s: &'static str)
    requires
        d < 10,
    ensures
        s@ == seq![digit_char(d as nat)],
{
    proof {
        reveal_strlit("0");
        reveal_strlit("1");
        reveal_strlit("2");
        reveal_strlit("3");
        reveal_strlit("4");
        reveal_strlit("5");
        reveal_strlit("6");
        reveal_strlit("7");
        reveal_strlit("8");
        reveal_strlit("9");
    }
    let s = if d == 0 {
        "0"
    } else if d == 1 {
        "1"
    } else if d == 2 {
        "2"
    } else if d == 3 {
        "3"
    } else if d == 4 {
        "4"
    } else if d == 5 {
        "5"
    } else if d == 6 {
        "6"
    } else if d == 7 {
        "7"
    } else if d == 8 {
        "8"
    } else {
        "9"
    };
    assert(s@ =~= seq![digit_char(d as nat)]);
    s
}

/// Renders `n` in decimal.
pub fn decimal_string(n: u32) -> (s: String)
    ensures
        s@ == decimal_text(n as nat),
{
    let mut s = String::from_str(digit_str(n % 10));
    let mut rest: u32 = n / 10;
    proof {
        lemma_decimal_text_split(n as nat);
        assert(decimal_text(n as nat) =~= leading_digits(rest as nat) + s@);
    }
    while rest > 0
        invariant
            decimal_text(n as nat) == leading_digits(rest as nat) + s@,
        decreases rest,
    {
        let digit = digit_str(rest % 10);
        proof {
            lemma_decimal_text_split(rest as nat);
            assert(leading_digits(rest as nat) + s@ =~= leading_digits((rest / 10) as nat) + (
            digit@ + s@));
        }
        s = String::from_str(digit).concat(s.as_str());
        rest = rest / 10;
    }
    assert(leading_digits(0) + s@ =~= s@);
    s
}

} // verus!
