//! A length of time written out as hours, minutes and seconds, for
//! messages.

use vstd::prelude::*;
use vstd::string::*;
use crate::time::TimeDelta;

verus! {

/// The character for a digit below ten.
pub open spec fn digit_char(digit: nat) -> char {
    if digit == 0 {
        '0'
    } else if digit == 1 {
        '1'
    } else if digit == 2 {
        '2'
    } else if digit == 3 {
        '3'
    } else if digit == 4 {
        '4'
    } else if digit == 5 {
        '5'
    } else if digit == 6 {
        '6'
    } else if digit == 7 {
        '7'
    } else if digit == 8 {
        '8'
    } else {
        '9'
    }
}

/// A number in decimal digits, without leading zeros.
pub open spec fn decimal(number: nat) -> Seq<char>
    decreases number,
{
    if number < 10 {
        seq![digit_char(number)]
    } else {
        decimal(number / 10).push(digit_char(number % 10))
    }
}

/// A number below a hundred in two decimal digits.
pub open spec fn two_digits(number: nat) -> Seq<char> {
    seq![digit_char(number / 10), digit_char(number % 10)]
}

/// A number in decimal digits, with a minus sign in front if it is below
/// zero.
pub open spec fn signed_decimal(number: int) -> Seq<char> {
    if number < 0 {
        seq!['-'] + decimal((-number) as nat)
    } else {
        decimal(number as nat)
    }
}

/// A number without its sign.
pub open spec fn magnitude(number: int) -> nat {
    if number < 0 {
        (-number) as nat
    } else {
        number as nat
    }
}

/// The whole seconds in a signed count of nanoseconds: what is less than a
/// second is left out, so the count is rounded towards zero.
pub open spec fn whole_seconds(nanos: int) -> int {
    if nanos < 0 {
        -((-nanos) / 1_000_000_000)
    } else {
        nanos / 1_000_000_000
    }
}

/// The whole hours in a signed number of seconds, rounded towards zero.
pub open spec fn whole_hours(seconds: int) -> int {
    if seconds < 0 {
        -((-seconds) / 3600)
    } else {
        seconds / 3600
    }
}

/// A signed number of seconds as `h:mm:ss`. The hours are the whole hours
/// with their sign, in as many digits as they take. The minutes and the
/// seconds are those of the number without its sign, in two digits each.
/// So a time of less than an hour reads the same behind and ahead.
pub open spec fn clock_text(seconds: int) -> Seq<char> {
    signed_decimal(whole_hours(seconds)) + seq![':'] + two_digits((magnitude(seconds) / 60) % 60)
        + seq![':'] + two_digits(magnitude(seconds) % 60)
}

fn digit_text(digit: u128) -> (text: &'static str)
    requires
        digit < 10,
    ensures
        text@ == seq![digit_char(digit as nat)],
{
    proof {
        reveal_strlit("0");
        reveal_strlit("1");
        reveal_strlit("2");
        reveal_strlit("3");
        reveal_strlit("4");
        reveal_strlit("5");
        reveal_strlit("6");
        reveal_strlit("7");
        reveal_strlit("8");
        reveal_strlit("9");
    }
    let text = if digit == 0 {
        "0"
    } else if digit == 1 {
        "1"
    } else if digit == 2 {
        "2"
    } else if digit == 3 {
        "3"
    } else if digit == 4 {
        "4"
    } else if digit == 5 {
        "5"
    } else if digit == 6 {
        "6"
    } else if digit == 7 {
        "7"
    } else if digit == 8 {
        "8"
    } else {
        "9"
    };
    text
}

fn push_decimal(text: &mut String, number: u128)
    ensures
        final(text)@ == old(text)@ + decimal(number as nat),
    decreases number,
{
    if number >= 10 {
        push_decimal(text, number / 10);
    }
    text.append(digit_text(number % 10));
}

fn push_two_digits(text: &mut String, number: u128)
    requires
        number < 100,
    ensures
        final(text)@ == old(text)@ + two_digits(number as nat),
{
    text.append(digit_text(number / 10));
    text.append(digit_text(number % 10));
}

/// Writes a length of time as `h:mm:ss`, leaving out what is less than a
/// second. The hours carry the sign; the minutes and seconds are written
/// without it. Ninety minutes and a half second are `1:30:00`, and an hour,
/// a minute and a second behind are `-1:01:01`.
pub fn timedelta_to_str(timedelta: &TimeDelta) -> (text: String)
    ensures
        text@ == clock_text(whole_seconds(timedelta.nanos as int)),
{
    let behind: bool = timedelta.nanos < 0;
    let size: u128 = if behind {
        (-(timedelta.nanos + 1)) as u128 + 1
    } else {
        timedelta.nanos as u128
    };
    let total_seconds: u128 = size / 1_000_000_000;
    let s: u128 = total_seconds % 60;
    let total_minutes: u128 = total_seconds / 60;
    let m: u128 = total_minutes % 60;
    let h: u128 = total_seconds / 3600;
    proof {
        reveal_strlit(":");
        reveal_strlit("-");
    }
    let mut text = String::new();
    if behind && h > 0 {
        text.append("-");
    }
    push_decimal(&mut text, h);
    text.append(":");
    push_two_digits(&mut text, m);
    text.append(":");
    push_two_digits(&mut text, s);
    text
}

} // verus!
