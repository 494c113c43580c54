use vstd::prelude::*;
use vstd::string::StringExecFns;

verus! {

/// The lower-case hexadecimal digit of a number below 16.
pub open spec fn lower_hex_digit(digit: nat) -> Seq<char> {
    if digit == 0 {
        "0"@
    } else if digit == 1 {
        "1"@
    } else if digit == 2 {
        "2"@
    } else if digit == 3 {
        "3"@
    } else if digit == 4 {
        "4"@
    } else if digit == 5 {
        "5"@
    } else if digit == 6 {
        "6"@
    } else if digit == 7 {
        "7"@
    } else if digit == 8 {
        "8"@
    } else if digit == 9 {
        "9"@
    } else if digit == 10 {
        "a"@
    } else if digit == 11 {
        "b"@
    } else if digit == 12 {
        "c"@
    } else if digit == 13 {
        "d"@
    } else if digit == 14 {
        "e"@
    } else {
        "f"@
    }
}

/// A number in lower-case hexadecimal, without leading zeros.
pub open spec fn lower_hex(number: nat) -> Seq<char>
    decreases number,
{
    if number < 16 {
        lower_hex_digit(number)
    } else {
        lower_hex(number / 16) + lower_hex_digit(number % 16)
    }
}

/// A number in lower-case hexadecimal behind the prefix `0x`.
pub open spec fn prefixed_hex(number: nat) -> Seq<char> {
    "0x"@ + lower_hex(number)
}

/// A number in decimal, without leading zeros.
pub open spec fn decimal(number: nat) -> Seq<char>
    decreases number,
{
    if number < 10 {
        lower_hex_digit(number)
    } else {
        decimal(number / 10) + lower_hex_digit(number % 10)
    }
}

fn digit_text(digit: u16) -> (text: &'static str)
    requires
        digit < 16,
    ensures
        text@ == lower_hex_digit(digit as nat),
{
    match digit {
        0 => "0",
        1 => "1",
        2 => "2",
        3 => "3",
        4 => "4",
        5 => "5",
        6 => "6",
        7 => "7",
        8 => "8",
        9 => "9",
        10 => "a",
        11 => "b",
        12 => "c",
        13 => "d",
        14 => "e",
        _ => "f",
    }
}

/// Writes a number in lower-case hexadecimal, without leading zeros.
pub fn format_lower_hex(number: u16) -> (text: String)
    ensures
        text@ == lower_hex(number as nat),
    decreases number,
{
    if number < 16 {
        String::from_str(digit_text(number))
    } else {
        let mut text = format_lower_hex(number / 16);
        text.append(digit_text(number % 16));
        text
    }
}

/// Writes a number in lower-case hexadecimal behind the prefix `0x`.
pub fn format_prefixed_hex(number: u16) -> (text: String)
    ensures
        text@ == prefixed_hex(number as nat),
{
    let mut text = String::from_str("0x");
    text.append(format_lower_hex(number).as_str());
    text
}

/// Writes a number in decimal.
pub fn format_decimal(number: u16) -> (text: String)
    ensures
        text@ == decimal(number as nat),
    decreases number,
{
    if number < 10 {
        String::from_str(digit_text(number))
    } else {
        let mut text = format_decimal(number / 10);
        text.append(digit_text(number % 10));
        text
    }
}

} // verus!
