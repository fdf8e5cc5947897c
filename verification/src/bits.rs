//! Bit and digit helpers shared by the display and the executor.

use vstd::prelude::*;

verus! {

/// Bit `position` of `value`, counting from the most significant bit (position 0)
/// down to the least significant one (position 7).
pub open spec fn spec_get_bit(value: u8, position: u8) -> bool {
    (value >> ((7 - position) as u8)) & 1 == 1
}

/// Reads one bit of a byte, most significant bit first.
pub fn get_bit(value: &u8, position: &u8) -> (on: bool)
    requires
        *position <= 7,
    ensures
        on == spec_get_bit(*value, *position),
        on == ((*value >> ((7 - *position) as u8)) & 1 == 1),
{
    let v: u8 = *value;
    let p: u8 = *position;
    assert((v & (1u8 << ((7 - p) as u8)) != 0) == ((v >> ((7 - p) as u8)) & 1 == 1))
        by (bit_vector)
        requires
            p <= 7,
    ;
    v & (1u8 << (7 - p)) != 0
}

/// The decimal digits of a byte: hundreds, tens, units.
pub open spec fn spec_digits(number: u8) -> (u8, u8, u8) {
    (number / 100, (number / 10) % 10, number % 10)
}

/// Splits a byte into its three decimal digits, most significant first.
pub fn splice_digits(number: u8) -> (digits: (u8, u8, u8))
    ensures
        digits == spec_digits(number),
        digits.0 * 100 + digits.1 * 10 + digits.2 == number,
        digits.0 <= 2,
        digits.1 <= 9,
        digits.2 <= 9,
{
    let digit_three: u8 = number % 10;
    let digit_two: u8 = (number % 100 - digit_three) / 10;
    let digit_one: u8 = (number - digit_two * 10 - digit_three) / 100;
    (digit_one, digit_two, digit_three)
}

/// The digits of every byte recompose to it, each within its decimal range.
pub proof fn lemma_digits_recompose(number: u8)
    ensures
        spec_digits(number).0 * 100 + spec_digits(number).1 * 10 + spec_digits(number).2
            == number,
        0 <= spec_digits(number).0 <= 2,
        0 <= spec_digits(number).1 <= 9,
        0 <= spec_digits(number).2 <= 9,
{
}

} // verus!
