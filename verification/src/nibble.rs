//! The four-bit fields of a 16-bit opcode word.
//!
//! Nibbles are counted from the least significant end: the first nibble is
//! bits 0-3 and the fourth nibble is bits 12-15.

use vstd::prelude::*;

verus! {

/// The low twelve bits of `n`: the address operand `nnn`.
pub open spec fn last_3_nibbles(n: u16) -> u16 {
    (n % 0x1000) as u16
}

/// The low eight bits of `n`: the byte operand `kk`.
pub open spec fn last_2_nibbles(n: u16) -> u8 {
    (n % 0x100) as u8
}

/// Bits 8-11 of `n`: the register operand `x`.
pub open spec fn third_nibble(n: u16) -> u8 {
    ((n / 0x100) % 0x10) as u8
}

/// Bits 4-7 of `n`: the register operand `y`.
pub open spec fn second_nibble(n: u16) -> u8 {
    ((n / 0x10) % 0x10) as u8
}

/// Bits 0-3 of `n`: the operand `n` or a sub-operation selector.
pub open spec fn first_nibble(n: u16) -> u8 {
    (n % 0x10) as u8
}

/// Bits 12-15 of `n`: the instruction family.
pub open spec fn fourth_nibble(n: u16) -> u8 {
    (n / 0x1000) as u8
}

pub fn get_last_3_nibbles(n: u16) -> (r: u16)
    ensures
        r == last_3_nibbles(n),
        r <= 0xFFF,
{
    assert(n & 0x0FFFu16 == n % 0x1000) by (bit_vector);
    n & 0x0FFFu16
}

pub fn get_last_2_nibbles(n: u16) -> (r: u8)
    ensures
        r == last_2_nibbles(n),
{
    assert(n & 0x00FFu16 == n % 0x100) by (bit_vector);
    (n & 0x00FFu16) as u8
}

pub fn get_third_nibble(n: u16) -> (r: u8)
    ensures
        r == third_nibble(n),
        r <= 0xF,
{
    assert((n & 0x0F00u16) >> 8 == (n / 0x100) % 0x10) by (bit_vector);
    ((n & 0x0F00u16) >> 8) as u8
}

pub fn get_second_nibble(n: u16) -> (r: u8)
    ensures
        r == second_nibble(n),
        r <= 0xF,
{
    assert((n & 0x00F0u16) >> 4 == (n / 0x10) % 0x10) by (bit_vector);
    ((n & 0x00F0u16) >> 4) as u8
}

pub fn get_first_nibble(n: u16) -> (r: u8)
    ensures
        r == first_nibble(n),
        r <= 0xF,
{
    assert(n & 0x000Fu16 == n % 0x10) by (bit_vector);
    (n & 0x000Fu16) as u8
}

pub fn get_fourth_nibble(n: u16) -> (r: u8)
    ensures
        r == fourth_nibble(n),
        r <= 0xF,
{
    assert((n & 0xF000u16) >> 12 == n / 0x1000) by (bit_vector);
    ((n & 0xF000u16) >> 12) as u8
}

/// An opcode word is the sum of its four nibbles, each at its place.
pub proof fn law_nibbles_compose(n: u16)
    ensures
        n == fourth_nibble(n) * 0x1000 + third_nibble(n) * 0x100 + second_nibble(n) * 0x10
            + first_nibble(n),
        last_3_nibbles(n) == third_nibble(n) * 0x100 + second_nibble(n) * 0x10 + first_nibble(n),
        last_2_nibbles(n) == second_nibble(n) * 0x10 + first_nibble(n),
{
    assert(n == (n / 0x1000) * 0x1000 + ((n / 0x100) % 0x10) * 0x100 + ((n / 0x10) % 0x10) * 0x10
        + n % 0x10) by (bit_vector);
    assert(n % 0x1000 == ((n / 0x100) % 0x10) * 0x100 + ((n / 0x10) % 0x10) * 0x10 + n % 0x10)
        by (bit_vector);
    assert(n % 0x100 == ((n / 0x10) % 0x10) * 0x10 + n % 0x10) by (bit_vector);
}

} // verus!
