//! The address of a node as it is configured in text.
//!
//! A configured address is a decimal number from 0 to 255: one or more digits,
//! with an optional `+` before them and nothing else around them.

use crate::svc::race_node::NodeAddress;
use vstd::prelude::*;
use vstd::string::StringSliceAdditionalSpecFns;

verus! {

/// The byte of the character `+`.
pub const PLUS: u8 = 43;

/// The byte of the character `0`.
pub const ZERO: u8 = 48;

/// The byte of the character `9`.
pub const NINE: u8 = 57;

pub open spec fn spec_is_digit(byte: u8) -> bool {
    ZERO <= byte <= NINE
}

/// The value of a digit; zero for a byte that is no digit.
pub open spec fn spec_digit_value(byte: u8) -> nat {
    if spec_is_digit(byte) {
        (byte - ZERO) as nat
    } else {
        0
    }
}

/// The number that a run of digits writes in decimal.
pub open spec fn spec_decimal_value(digits: Seq<u8>) -> nat
    decreases digits.len(),
{
    if digits.len() == 0 {
        0
    } else {
        spec_decimal_value(digits.drop_last()) * 10 + spec_digit_value(digits.last())
    }
}

/// Whether `digits` is a run of one or more digits.
pub open spec fn spec_is_decimal(digits: Seq<u8>) -> bool {
    digits.len() > 0 && forall|i: int| 0 <= i < digits.len() ==> spec_is_digit(#[trigger] digits[i])
}

/// The text without the `+` that may stand before the digits.
pub open spec fn spec_unsigned_part(text: Seq<u8>) -> Seq<u8> {
    if text.len() > 0 && text[0] == PLUS {
        text.skip(1)
    } else {
        text
    }
}

/// The byte that `text` writes: its digits, after an optional `+`, read as a
/// decimal number, where that number is at most 255. Any other text writes none.
pub open spec fn spec_parse_u8(text: Seq<u8>) -> Option<u8> {
    let digits = spec_unsigned_part(text);
    if spec_is_decimal(digits) && spec_decimal_value(digits) <= 255 {
        Some(spec_decimal_value(digits) as u8)
    } else {
        None
    }
}

/// A run of digits writes a number that is no less than any of its beginnings writes.
pub proof fn lemma_decimal_value_grows(digits: Seq<u8>, n: int)
    requires
        0 <= n <= digits.len(),
    ensures
        spec_decimal_value(digits.take(n)) <= spec_decimal_value(digits),
    decreases digits.len(),
{
    if n == digits.len() {
        assert(digits.take(n) =~= digits);
    } else {
        assert(digits.drop_last().take(n) =~= digits.take(n));
        lemma_decimal_value_grows(digits.drop_last(), n);
    }
}

/// Reads a decimal number from 0 to 255.
///
/// The result is the number exactly when `text` is one or more digits, with an
/// optional `+` before them, that write a number of at most 255. Empty text, a
/// sign alone, any other character and any larger number give none.
pub fn parse_u8(text: &[u8]) -> (value: Option<u8>)
    ensures
        value == spec_parse_u8(text@),
{
    let start: usize = if text.len() > 0 && text[0] == PLUS {
        1
    } else {
        0
    };
    let ghost digits = spec_unsigned_part(text@);
    assert(digits =~= text@.subrange(start as int, text@.len() as int));
    if start >= text.len() {
        return None;
    }
    let mut value: u16 = 0;
    let mut i: usize = start;
    while i < text.len()
        invariant
            start <= i <= text@.len(),
            digits == spec_unsigned_part(text@),
            digits == text@.subrange(start as int, text@.len() as int),
            forall|j: int| 0 <= j < i - start ==> spec_is_digit(#[trigger] digits[j]),
            value == spec_decimal_value(digits.take(i - start)),
            value <= 255,
        decreases text@.len() - i,
    {
        let byte = text[i];
        assert(digits[i - start] == byte);
        if byte < ZERO || byte > NINE {
            return None;
        }
        let next: u16 = value * 10 + (byte - ZERO) as u16;
        assert(digits.take(i + 1 - start).drop_last() =~= digits.take(i - start));
        assert(next == spec_decimal_value(digits.take(i + 1 - start)));
        if next > 255 {
            proof {
                lemma_decimal_value_grows(digits, i + 1 - start);
            }
            return None;
        }
        value = next;
        i = i + 1;
    }
    assert(digits.take(i - start) =~= digits);
    Some(value as u8)
}

/// The address that a configured text gives, if there is a text and it writes a
/// number from 0 to 255.
pub open spec fn spec_address_from_env_var(value: Option<&str>) -> Option<NodeAddress> {
    match value {
        Some(text) => match spec_parse_u8(text.spec_bytes()) {
            Some(byte) => Some(NodeAddress(byte)),
            None => None,
        },
        None => None,
    }
}

/// Reads the address of the node from the text that configures it.
///
/// Without a text, or with a text that is no decimal number from 0 to 255, there
/// is no configured address.
pub fn address_from_env_var(value: Option<&str>) -> (address: Option<NodeAddress>)
    ensures
        address == spec_address_from_env_var(value),
{
    match value {
        Some(text) => match parse_u8(text.as_bytes()) {
            Some(byte) => Some(NodeAddress::from(byte)),
            None => None,
        },
        None => None,
    }
}

} // verus!
