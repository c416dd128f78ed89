//! Numbers as text, for the messages that errors carry.

use vstd::prelude::*;
use vstd::string::StringExecFns;

verus! {

/// The text of one digit; empty for a number that is no digit.
pub open spec fn digit_text(digit: nat) -> Seq<char> {
    if digit == 0 {
        "0"@
    } else if digit == 1 {
        "1"@
    } else if digit == 2 {
        "2"@
    } else if digit == 3 {
        "3"@
    } else if digit == 4 {
        "4"@
    } else if digit == 5 {
        "5"@
    } else if digit == 6 {
        "6"@
    } else if digit == 7 {
        "7"@
    } else if digit == 8 {
        "8"@
    } else if digit == 9 {
        "9"@
    } else if digit == 10 {
        "A"@
    } else if digit == 11 {
        "B"@
    } else if digit == 12 {
        "C"@
    } else if digit == 13 {
        "D"@
    } else if digit == 14 {
        "E"@
    } else if digit == 15 {
        "F"@
    } else {
        Seq::empty()
    }
}

/// A natural number in decimal, without leading zeros.
pub open spec fn decimal_text(number: nat) -> Seq<char>
    decreases number,
{
    if number < 10 {
        digit_text(number)
    } else {
        decimal_text(number / 10) + digit_text(number % 10)
    }
}

/// An integer in decimal, with a minus sign where it is negative.
pub open spec fn signed_decimal_text(number: int) -> Seq<char> {
    if number < 0 {
        "-"@ + decimal_text((-number) as nat)
    } else {
        decimal_text(number as nat)
    }
}

/// A natural number in hexadecimal, with capital letters and without
/// leading zeros.
pub open spec fn hexadecimal_text(number: nat) -> Seq<char>
    decreases number,
{
    if number < 16 {
        digit_text(number)
    } else {
        hexadecimal_text(number / 16) + digit_text(number % 16)
    }
}

fn digit(value: u8) -> (text: &'static str)
    requires
        value < 16,
    ensures
        text@ == digit_text(value as nat),
{
    match value {
        0 => "0",
        1 => "1",
        2 => "2",
        3 => "3",
        4 => "4",
        5 => "5",
        6 => "6",
        7 => "7",
        8 => "8",
        9 => "9",
        10 => "A",
        11 => "B",
        12 => "C",
        13 => "D",
        14 => "E",
        _ => "F",
    }
}

/// Writes a number in decimal.
pub fn decimal(value: u64) -> (text: String)
    ensures
        text@ == decimal_text(value as nat),
    decreases value,
{
    if value < 10 {
        String::from_str(digit(value as u8))
    } else {
        let mut text = decimal(value / 10);
        text.append(digit((value % 10) as u8));
        text
    }
}

/// Writes an integer in decimal, with a minus sign where it is negative.
pub fn signed_decimal(value: i64) -> (text: String)
    ensures
        text@ == signed_decimal_text(value as int),
{
    if value < 0 {
        let magnitude: u64 = if value == i64::MIN {
            0x8000_0000_0000_0000u64
        } else {
            (-value) as u64
        };
        String::from_str("-").concat(decimal(magnitude).as_str())
    } else {
        decimal(value as u64)
    }
}

/// Writes a number in hexadecimal, with capital letters.
pub fn hexadecimal(value: u64) -> (text: String)
    ensures
        text@ == hexadecimal_text(value as nat),
    decreases value,
{
    if value < 16 {
        String::from_str(digit(value as u8))
    } else {
        let mut text = hexadecimal(value / 16);
        text.append(digit((value % 16) as u8));
        text
    }
}

} // verus!
