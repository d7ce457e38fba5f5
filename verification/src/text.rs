//! Numbers and times as text, for lines that a person reads.

use vstd::prelude::*;
use vstd::string::StringExecFns;

verus! {

/// The text that `chrono` shows for this point in time, in UTC; `None` where
/// `chrono` has no date for it.
pub uninterp spec fn utc_text(seconds: i64, nanos: u32) -> Option<Seq<char>>;

/// Calls `chrono::DateTime::from_timestamp` and shows the date that it
/// returns through its `Display`. The contract names the outcome
/// [`utc_text`] of the two arguments: the text where `chrono` has a date for
/// them, `None` where it has none.
#[verifier::external_body]
pub(crate) fn show_utc(seconds: i64, nanos: u32) -> (text: Option<String>)
    ensures
        match text {
            Some(shown) => utc_text(seconds, nanos) == Some(shown@),
            None => utc_text(seconds, nanos) is None,
        },
{
    match chrono::DateTime::from_timestamp(seconds, nanos) {
        Some(date) => Some(date.to_string()),
        None => None,
    }
}

/// One decimal digit as text.
pub open spec fn digit_text(digit: int) -> Seq<char> {
    if digit == 0 {
        "0"@
    } else if digit == 1 {
        "1"@
    } else if digit == 2 {
        "2"@
    } else if digit == 3 {
        "3"@
    } else if digit == 4 {
        "4"@
    } else if digit == 5 {
        "5"@
    } else if digit == 6 {
        "6"@
    } else if digit == 7 {
        "7"@
    } else if digit == 8 {
        "8"@
    } else {
        "9"@
    }
}

/// A natural number in decimal, without leading zeros.
pub open spec fn natural_text(value: nat) -> Seq<char>
    decreases value,
{
    if value < 10 {
        digit_text(value as int)
    } else {
        natural_text(value / 10) + digit_text((value % 10) as int)
    }
}

/// An integer in decimal, with a minus sign where it is negative.
pub open spec fn decimal_text(value: int) -> Seq<char> {
    if value < 0 {
        "-"@ + natural_text((-value) as nat)
    } else {
        natural_text(value as nat)
    }
}

/// One decimal digit as text.
pub fn digit(value: u64) -> (text: &'static str)
    requires
        value < 10,
    ensures
        text@ == digit_text(value as int),
{
    if value == 0 {
        "0"
    } else if value == 1 {
        "1"
    } else if value == 2 {
        "2"
    } else if value == 3 {
        "3"
    } else if value == 4 {
        "4"
    } else if value == 5 {
        "5"
    } else if value == 6 {
        "6"
    } else if value == 7 {
        "7"
    } else if value == 8 {
        "8"
    } else {
        "9"
    }
}

/// Writes a natural number in decimal.
pub fn natural(value: u64) -> (text: String)
    ensures
        text@ == natural_text(value as nat),
{
    let mut text = String::from_str(digit(value % 10));
    let mut rest: u64 = value / 10;
    while rest > 0
        invariant
            rest > 0 ==> natural_text(value as nat) == natural_text(rest as nat) + text@,
            rest == 0 ==> natural_text(value as nat) == text@,
        decreases rest,
    {
        text = String::from_str(digit(rest % 10)).concat(text.as_str());
        rest = rest / 10;
    }
    text
}

/// Writes an integer in decimal.
pub fn decimal(value: i64) -> (text: String)
    ensures
        text@ == decimal_text(value as int),
{
    if value < 0 {
        let magnitude: u64 = (-(value + 1)) as u64 + 1;
        String::from_str("-").concat(natural(magnitude).as_str())
    } else {
        natural(value as u64)
    }
}

} // verus!
