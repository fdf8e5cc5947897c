//! Hexadecimal text, as instruction words are written.

use vstd::prelude::*;
use crate::machine::CHIP8;

verus! {

/// The value of an upper-case hexadecimal digit; 0 for any other character.
pub open spec fn spec_hex_char(c: char) -> u16 {
    if c == '1' {
        1
    } else if c == '2' {
        2
    } else if c == '3' {
        3
    } else if c == '4' {
        4
    } else if c == '5' {
        5
    } else if c == '6' {
        6
    } else if c == '7' {
        7
    } else if c == '8' {
        8
    } else if c == '9' {
        9
    } else if c == 'A' {
        10
    } else if c == 'B' {
        11
    } else if c == 'C' {
        12
    } else if c == 'D' {
        13
    } else if c == 'E' {
        14
    } else if c == 'F' {
        15
    } else {
        0
    }
}

/// The value of a hexadecimal digit in either case, if the character is one.
pub open spec fn hex_digit(c: char) -> Option<nat> {
    if '0' <= c <= '9' {
        Some((c as u32 - '0' as u32) as nat)
    } else if 'a' <= c <= 'f' {
        Some((c as u32 - 'a' as u32 + 10) as nat)
    } else if 'A' <= c <= 'F' {
        Some((c as u32 - 'A' as u32 + 10) as nat)
    } else {
        None
    }
}

/// Whether every character is a hexadecimal digit.
pub open spec fn all_hex_digits(digits: Seq<char>) -> bool {
    forall|i: int| 0 <= i < digits.len() ==> hex_digit(#[trigger] digits[i]) is Some
}

/// The number that a string of hexadecimal digits writes, most significant
/// digit first.
pub open spec fn hex_value(digits: Seq<char>) -> nat
    decreases digits.len(),
{
    if digits.len() == 0 {
        0
    } else {
        hex_value(digits.drop_last()) * 16 + hex_digit(digits.last()).unwrap()
    }
}

/// The text without the plus sign that may stand in front of the digits.
pub open spec fn unsigned_part(text: Seq<char>) -> Seq<char> {
    if text.len() > 0 && text[0] == '+' {
        text.skip(1)
    } else {
        text
    }
}

/// Whether the text writes a 16-bit number in hexadecimal: at least one
/// digit, nothing but digits after an optional plus sign, and a value of at
/// most 65535. Leading zeros are allowed.
pub open spec fn is_hex_u16(text: Seq<char>) -> bool {
    let digits = unsigned_part(text);
    digits.len() > 0 && all_hex_digits(digits) && hex_value(digits) <= 0xFFFF
}

/// The value of the first digits of a string is at most the value of all of
/// them.
pub proof fn lemma_hex_value_prefix(digits: Seq<char>, n: int)
    requires
        0 <= n <= digits.len(),
    ensures
        hex_value(digits.take(n)) <= hex_value(digits),
    decreases digits.len() - n,
{
    if n == digits.len() {
        assert(digits.take(n) =~= digits);
    } else {
        lemma_hex_value_prefix(digits, n + 1);
        assert(digits.take(n + 1).drop_last() =~= digits.take(n));
    }
}

fn hex_digit_value(c: char) -> (value: Option<u8>)
    ensures
        value is Some == hex_digit(c) is Some,
        value matches Some(v) ==> v == hex_digit(c).unwrap() && v < 16,
{
    if '0' <= c && c <= '9' {
        Some((c as u32 - '0' as u32) as u8)
    } else if 'a' <= c && c <= 'f' {
        Some((c as u32 - 'a' as u32 + 10) as u8)
    } else if 'A' <= c && c <= 'F' {
        Some((c as u32 - 'A' as u32 + 10) as u8)
    } else {
        None
    }
}

impl CHIP8 {
    /// The number that hexadecimal text writes.
    pub fn hex_chars_to_u16(&self, chars: Vec<char>) -> (value: u16)
        requires
            is_hex_u16(chars@),
        ensures
            value == hex_value(unsigned_part(chars@)),
    {
        let start: usize = if chars.len() > 0 && chars[0] == '+' {
            1
        } else {
            0
        };
        let ghost digits = unsigned_part(chars@);
        let mut value: u16 = 0;
        let mut i: usize = start;
        while i < chars.len()
            invariant
                start <= i <= chars@.len(),
                digits == chars@.skip(start as int),
                all_hex_digits(digits),
                hex_value(digits) <= 0xFFFF,
                value == hex_value(digits.take(i - start)),
            decreases chars@.len() - i,
        {
            proof {
                lemma_hex_value_prefix(digits, i - start + 1);
                assert(digits.take(i - start + 1).drop_last() =~= digits.take(i - start));
            }
            let digit = match hex_digit_value(chars[i]) {
                Some(digit) => digit,
                None => 0,
            };
            value = value * 16 + digit as u16;
            i += 1;
        }
        assert(digits.take(i - start) =~= digits);
        value
    }

    /// The value of one upper-case hexadecimal digit; 0 for any other
    /// character.
    pub fn hex_char_to_u16(&self, c: char) -> (value: u16)
        ensures
            value == spec_hex_char(c),
            value <= 15,
    {
        match c {
            '0' => 0,
            '1' => 1,
            '2' => 2,
            '3' => 3,
            '4' => 4,
            '5' => 5,
            '6' => 6,
            '7' => 7,
            '8' => 8,
            '9' => 9,
            'A' => 10,
            'B' => 11,
            'C' => 12,
            'D' => 13,
            'E' => 14,
            'F' => 15,
            _ => 0,
        }
    }
}

} // verus!
