//! Small helpers for what is shown to users.

use std::time::Duration;
use vstd::prelude::*;
use vstd::string::StringExecFns;

verus! {

/// The digit that writes a number below ten.
pub open spec fn digit(value: nat) -> char {
    if value == 0 {
        '0'
    } else if value == 1 {
        '1'
    } else if value == 2 {
        '2'
    } else if value == 3 {
        '3'
    } else if value == 4 {
        '4'
    } else if value == 5 {
        '5'
    } else if value == 6 {
        '6'
    } else if value == 7 {
        '7'
    } else if value == 8 {
        '8'
    } else {
        '9'
    }
}

/// A number written in base ten, without leading zeros.
pub open spec fn decimal(value: nat) -> Seq<char>
    decreases value,
{
    if value < 10 {
        seq![digit(value)]
    } else {
        decimal(value / 10).push(digit(value % 10))
    }
}

/// The digit of a number below ten, as text.
fn digit_text(value: u128) -> (text: &'static str)
    requires
        value < 10,
    ensures
        text@ == seq![digit(value as nat)],
{
    proof {
        reveal_strlit("0");
        reveal_strlit("1");
        reveal_strlit("2");
        reveal_strlit("3");
        reveal_strlit("4");
        reveal_strlit("5");
        reveal_strlit("6");
        reveal_strlit("7");
        reveal_strlit("8");
        reveal_strlit("9");
    }
    let text = if value == 0 {
        "0"
    } else if value == 1 {
        "1"
    } else if value == 2 {
        "2"
    } else if value == 3 {
        "3"
    } else if value == 4 {
        "4"
    } else if value == 5 {
        "5"
    } else if value == 6 {
        "6"
    } else if value == 7 {
        "7"
    } else if value == 8 {
        "8"
    } else {
        "9"
    };
    text
}

/// Writes a number in base ten.
pub fn to_decimal(value: u128) -> (text: String)
    ensures
        text@ == decimal(value as nat),
    decreases value,
{
    if value < 10 {
        String::from_str(digit_text(value))
    } else {
        let mut text = to_decimal(value / 10);
        text.append(digit_text(value % 10));
        text
    }
}

/// The milliseconds from one reading of a clock to a later one: the later reading
/// less the earlier. Where the reading given as the later one is the smaller, no
/// time is taken to have passed.
pub fn elapsed_ms(left: u64, right: u64) -> (ms: u64)
    ensures
        left >= right ==> ms == left - right,
        left < right ==> ms == 0,
{
    if left >= right {
        left - right
    } else {
        0
    }
}

/// The whole milliseconds that a duration holds.
pub uninterp spec fn millis_of(duration: Duration) -> u128;

/// `Duration::as_millis` returns the number of whole milliseconds that the duration
/// holds. The number depends on the duration alone.
pub assume_specification[ Duration::as_millis ](duration: &Duration) -> (millis: u128)
    ensures
        millis == millis_of(*duration),
;

/// A count of milliseconds as it is shown: the number in base ten, then `ms`.
pub open spec fn millis_text(millis: nat) -> Seq<char> {
    decimal(millis) + "ms"@
}

/// Writes a count of milliseconds as it is shown.
pub fn format_ms(millis: u128) -> (text: String)
    ensures
        text@ == millis_text(millis as nat),
{
    let mut text = to_decimal(millis);
    text.append("ms");
    text
}

/// Writes a duration as its whole milliseconds.
pub fn to_ms(duration: Duration) -> (text: String)
    ensures
        text@ == millis_text(millis_of(duration) as nat),
{
    format_ms(duration.as_millis())
}

} // verus!
