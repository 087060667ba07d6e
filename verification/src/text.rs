//! Whole numbers written out in decimal.

use vstd::prelude::*;
use vstd::string::*;

verus! {

/// The character for a single digit.
pub open spec fn digit_char(d: int) -> char {
    if d == 0 {
        '0'
    } else if d == 1 {
        '1'
    } else if d == 2 {
        '2'
    } else if d == 3 {
        '3'
    } else if d == 4 {
        '4'
    } else if d == 5 {
        '5'
    } else if d == 6 {
        '6'
    } else if d == 7 {
        '7'
    } else if d == 8 {
        '8'
    } else {
        '9'
    }
}

/// The digits of a natural number, most significant first, without leading
/// zeros.
pub open spec fn digits_text(n: nat) -> Seq<char>
    decreases n,
{
    if n < 10 {
        seq![digit_char(n as int)]
    } else {
        digits_text(n / 10).push(digit_char((n % 10) as int))
    }
}

/// A whole number in decimal, with a minus sign in front where it is
/// negative.
pub open spec fn decimal_text(n: int) -> Seq<char> {
    if n < 0 {
        seq!['-'] + digits_text((-n) as nat)
    } else {
        digits_text(n as nat)
    }
}

fn digit_str(d: u8) -> (text: &'static str)
    requires
        d < 10,
    ensures
        text@ == seq![digit_char(d as int)],
{
    proof {
        reveal_strlit("0");
        reveal_strlit("1");
        reveal_strlit("2");
        reveal_strlit("3");
        reveal_strlit("4");
        reveal_strlit("5");
        reveal_strlit("6");
        reveal_strlit("7");
        reveal_strlit("8");
        reveal_strlit("9");
    }
    let text = if d == 0 {
        "0"
    } else if d == 1 {
        "1"
    } else if d == 2 {
        "2"
    } else if d == 3 {
        "3"
    } else if d == 4 {
        "4"
    } else if d == 5 {
        "5"
    } else if d == 6 {
        "6"
    } else if d == 7 {
        "7"
    } else if d == 8 {
        "8"
    } else {
        "9"
    };
    assert(text@ =~= seq![digit_char(d as int)]);
    text
}

fn append_digits(text: &mut String, n: u128)
    ensures
        final(text)@ == old(text)@ + digits_text(n as nat),
    decreases n,
{
    if n >= 10 {
        append_digits(text, n / 10);
    }
    text.append(digit_str((n % 10) as u8));
    assert(text@ =~= old(text)@ + digits_text(n as nat));
}

/// Writes a whole number in decimal.
pub fn decimal(n: i128) -> (text: String)
    ensures
        text@ == decimal_text(n as int),
{
    let mut text = String::new();
    if n < 0 {
        proof {
            reveal_strlit("-");
        }
        text.append("-");
        let magnitude: u128 = if n == i128::MIN {
            (i128::MAX as u128) + 1
        } else {
            (-n) as u128
        };
        append_digits(&mut text, magnitude);
        assert(text@ =~= decimal_text(n as int));
    } else {
        append_digits(&mut text, n as u128);
        assert(text@ =~= decimal_text(n as int));
    }
    text
}

} // verus!
