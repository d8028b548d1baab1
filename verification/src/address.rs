//! The bus address of the device.

use vstd::prelude::*;

verus! {

/// A 7-bit address on the two-wire bus.
#[derive(Clone, Copy, Debug, PartialEq, Eq, Structural)]
pub struct I2cAddress(pub u8);

/// The character of one hexadecimal digit, with the letters in lower
/// case.
pub open spec fn lower_hex_digit(digit: int) -> char {
    if digit == 0 {
        '0'
    } else if digit == 1 {
        '1'
    } else if digit == 2 {
        '2'
    } else if digit == 3 {
        '3'
    } else if digit == 4 {
        '4'
    } else if digit == 5 {
        '5'
    } else if digit == 6 {
        '6'
    } else if digit == 7 {
        '7'
    } else if digit == 8 {
        '8'
    } else if digit == 9 {
        '9'
    } else if digit == 10 {
        'a'
    } else if digit == 11 {
        'b'
    } else if digit == 12 {
        'c'
    } else if digit == 13 {
        'd'
    } else if digit == 14 {
        'e'
    } else {
        'f'
    }
}

/// The character of one hexadecimal digit, with the letters in upper
/// case.
pub open spec fn upper_hex_digit(digit: int) -> char {
    if digit == 10 {
        'A'
    } else if digit == 11 {
        'B'
    } else if digit == 12 {
        'C'
    } else if digit == 13 {
        'D'
    } else if digit == 14 {
        'E'
    } else if digit == 15 {
        'F'
    } else {
        lower_hex_digit(digit)
    }
}

/// A byte in hexadecimal, lower case: one digit below 16, else two, with
/// no prefix.
pub open spec fn lower_hex_text(value: u8) -> Seq<char> {
    if value < 16 {
        seq![lower_hex_digit(value as int)]
    } else {
        seq![lower_hex_digit(value as int / 16), lower_hex_digit(value as int % 16)]
    }
}

/// A byte in hexadecimal, upper case: one digit below 16, else two, with
/// no prefix.
pub open spec fn upper_hex_text(value: u8) -> Seq<char> {
    if value < 16 {
        seq![upper_hex_digit(value as int)]
    } else {
        seq![upper_hex_digit(value as int / 16), upper_hex_digit(value as int % 16)]
    }
}

/// Formats a byte with the standard library's `{:x}`. Trusted: that the
/// text is the byte in hexadecimal with lower-case letters, without
/// prefix or padding, as `std::fmt::LowerHex` documents for integers.
#[verifier::external_body]
fn format_lower_hex(value: u8) -> (text: String)
    ensures
        text@ == lower_hex_text(value),
{
    format!("{:x}", value)
}

/// Formats a byte with the standard library's `{:X}`. Trusted: that the
/// text is the byte in hexadecimal with upper-case letters, without
/// prefix or padding, as `std::fmt::UpperHex` documents for integers.
#[verifier::external_body]
fn format_upper_hex(value: u8) -> (text: String)
    ensures
        text@ == upper_hex_text(value),
{
    format!("{:X}", value)
}

impl I2cAddress {
    /// Wraps a raw address value.
    pub fn new(val: u8) -> (address: Self)
        ensures
            address == I2cAddress(val),
    {
        Self(val)
    }

    /// The address in hexadecimal, lower case.
    pub fn lower_hex(&self) -> (text: String)
        ensures
            text@ == lower_hex_text(self.0),
    {
        format_lower_hex(self.0)
    }

    /// The address in hexadecimal, upper case.
    pub fn upper_hex(&self) -> (text: String)
        ensures
            text@ == upper_hex_text(self.0),
    {
        format_upper_hex(self.0)
    }
}

impl From<I2cAddress> for u8 {
    fn from(address: I2cAddress) -> (val: u8) {
        address.0
    }
}

impl vstd::std_specs::convert::FromSpecImpl<I2cAddress> for u8 {
    open spec fn obeys_from_spec() -> bool {
        true
    }

    open spec fn from_spec(address: I2cAddress) -> u8 {
        address.0
    }
}

impl From<u8> for I2cAddress {
    fn from(val: u8) -> (address: I2cAddress) {
        I2cAddress::new(val)
    }
}

impl vstd::std_specs::convert::FromSpecImpl<u8> for I2cAddress {
    open spec fn obeys_from_spec() -> bool {
        true
    }

    open spec fn from_spec(val: u8) -> I2cAddress {
        I2cAddress(val)
    }
}

} // verus!
