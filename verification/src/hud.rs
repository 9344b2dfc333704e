//! The text of the health read-out.

use vstd::prelude::*;

verus! {

/// The character that stands for the digit `d`.
pub open spec fn digit_char(d: int) -> char
    recommends
        0 <= d <= 9,
{
    if d == 0 {
        '0'
    } else if d == 1 {
        '1'
    } else if d == 2 {
        '2'
    } else if d == 3 {
        '3'
    } else if d == 4 {
        '4'
    } else if d == 5 {
        '5'
    } else if d == 6 {
        '6'
    } else if d == 7 {
        '7'
    } else if d == 8 {
        '8'
    } else {
        '9'
    }
}

/// The decimal digits of `n`, most significant first, without leading zeros;
/// zero is written `0`.
pub open spec fn decimal_digits(n: nat) -> Seq<char>
    decreases n,
{
    if n < 10 {
        seq![digit_char(n as int)]
    } else {
        decimal_digits(n / 10).push(digit_char((n % 10) as int))
    }
}

/// The read-out for a health of `health` percent: the number in decimal, with
/// a minus sign if it is negative, and a percent sign behind it.
pub open spec fn health_label(health: int) -> Seq<char> {
    if health < 0 {
        seq!['-'] + decimal_digits((-health) as nat) + seq!['%']
    } else {
        decimal_digits(health as nat) + seq!['%']
    }
}

/// The digit `d` as a text of one character.
fn digit_str(d: u32) -> (s: &'static str)
    requires
        d <= 9,
    ensures
        s@ == seq![digit_char(d as int)],
{
    proof {
        reveal_strlit("0");
        reveal_strlit("1");
        reveal_strlit("2");
        reveal_strlit("3");
        reveal_strlit("4");
        reveal_strlit("5");
        reveal_strlit("6");
        reveal_strlit("7");
        reveal_strlit("8");
        reveal_strlit("9");
    }
    let s = if d == 0 {
        "0"
    } else if d == 1 {
        "1"
    } else if d == 2 {
        "2"
    } else if d == 3 {
        "3"
    } else if d == 4 {
        "4"
    } else if d == 5 {
        "5"
    } else if d == 6 {
        "6"
    } else if d == 7 {
        "7"
    } else if d == 8 {
        "8"
    } else {
        "9"
    };
    assert(s@ =~= seq![digit_char(d as int)]);
    s
}

/// Writes `n` in decimal.
pub fn decimal_string(n: u32) -> (text: String)
    ensures
        text@ == decimal_digits(n as nat),
    decreases n,
{
    if n < 10 {
        String::from_str(digit_str(n))
    } else {
        decimal_string(n / 10).concat(digit_str(n % 10))
    }
}

/// The text that the health read-out shows.
pub fn health_text(health: i32) -> (text: String)
    ensures
        text@ == health_label(health as int),
{
    proof {
        reveal_strlit("-");
        reveal_strlit("%");
    }
    if health < 0 {
        let magnitude: u32 = (-(health as i64)) as u32;
        let text = String::from_str("-").concat(decimal_string(magnitude).as_str()).concat("%");
        assert(text@ =~= health_label(health as int));
        text
    } else {
        let text = decimal_string(health as u32).concat("%");
        assert(text@ =~= health_label(health as int));
        text
    }
}

} // verus!
