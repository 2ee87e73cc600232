//! Facts that tie the bit operations of the executable code to the plain
//! arithmetic in which the contracts are written.

use vstd::prelude::*;

verus! {

/// High byte of a 16-bit word.
pub open spec fn high_byte(n: u16) -> u8 {
    (n / 256) as u8
}

/// Low byte of a 16-bit word.
pub open spec fn low_byte(n: u16) -> u8 {
    (n % 256) as u8
}

/// The 16-bit word whose high byte is `high` and whose low byte is `low`.
pub open spec fn word(high: u8, low: u8) -> u16 {
    (high * 256 + low) as u16
}

pub proof fn lemma_word_bits(high: u8, low: u8)
    ensures
        (low as u16) | ((high as u16) << 8) == word(high, low),
        ((high as u16) << 8) | (low as u16) == word(high, low),
{
    assert((low as u16) | ((high as u16) << 8) == (high as u16) * 256 + (low as u16)
        && ((high as u16) << 8) | (low as u16) == (high as u16) * 256 + (low as u16))
        by (bit_vector);
}

pub proof fn lemma_split_bits(n: u16)
    ensures
        (n >> 8) as u8 == high_byte(n),
        (n & 0xFF) as u8 == low_byte(n),
        (n >> 8) < 256,
        (n & 0xFF) < 256,
{
    assert((n >> 8) == n / 256 && (n & 0xFF) == n % 256) by (bit_vector);
}

pub proof fn lemma_low_bits(value: u8)
    ensures
        value & 0b1 == value % 2,
        value & 0b11 == value % 4,
        value & 0x0F == value % 16,
{
    assert(value & 0b1 == value % 2) by (bit_vector);
    assert(value & 0b11 == value % 4) by (bit_vector);
    assert(value & 0x0F == value % 16) by (bit_vector);
}

pub proof fn lemma_low_bits_u16(value: u16)
    ensures
        value & 0x000F == value % 16,
        value & 0x0FFF == value % 0x1000,
{
    assert(value & 0x000F == value % 16) by (bit_vector);
    assert(value & 0x0FFF == value % 0x1000) by (bit_vector);
}

/// Bit 7 of a flag byte: the Zero flag.
pub open spec fn zero_bit(f: u8) -> bool {
    f >> 7 == 1
}

/// Bit 6 of a flag byte: the Subtract flag.
pub open spec fn subtract_bit(f: u8) -> bool {
    (f >> 6) & 1 == 1
}

/// Bit 5 of a flag byte: the Half-carry flag.
pub open spec fn half_carry_bit(f: u8) -> bool {
    (f >> 5) & 1 == 1
}

/// Bit 4 of a flag byte: the Carry flag.
pub open spec fn carry_flag_bit(f: u8) -> bool {
    (f >> 4) & 1 == 1
}

/// The flag byte that holds the four flags as given, over the low nibble of
/// `f`.
pub open spec fn pack_flags(f: u8, z: bool, n: bool, h: bool, c: bool) -> u8 {
    (f & 0x0F) | (if z { 0x80u8 } else { 0u8 }) | (if n { 0x40u8 } else { 0u8 }) | (if h { 0x20u8 } else { 0u8 }) | (if c {
        0x10u8
    } else {
        0u8
    })
}

/// A packed flag byte gives back the four flags it was packed from, and the
/// low nibble it was packed over.
pub proof fn lemma_pack_flags(f: u8, z: bool, n: bool, h: bool, c: bool)
    by (bit_vector)
    ensures
        zero_bit(pack_flags(f, z, n, h, c)) == z,
        subtract_bit(pack_flags(f, z, n, h, c)) == n,
        half_carry_bit(pack_flags(f, z, n, h, c)) == h,
        carry_flag_bit(pack_flags(f, z, n, h, c)) == c,
        pack_flags(f, z, n, h, c) & 0x0F == f & 0x0F,
        pack_flags(f, zero_bit(f), subtract_bit(f), half_carry_bit(f), carry_flag_bit(f)) == f,
{
}

/// Setting or clearing one flag bit is packing the byte anew with the other
/// three flags as they were.
pub proof fn lemma_flag_set(f: u8)
    by (bit_vector)
    ensures
        f | 0b1000_0000 == pack_flags(f, true, subtract_bit(f), half_carry_bit(f), carry_flag_bit(f)),
        f & 0b0111_1111 == pack_flags(f, false, subtract_bit(f), half_carry_bit(f), carry_flag_bit(f)),
        f | 0b0100_0000 == pack_flags(f, zero_bit(f), true, half_carry_bit(f), carry_flag_bit(f)),
        f & 0b1011_1111 == pack_flags(f, zero_bit(f), false, half_carry_bit(f), carry_flag_bit(f)),
        f | 0b0010_0000 == pack_flags(f, zero_bit(f), subtract_bit(f), true, carry_flag_bit(f)),
        f & 0b1101_1111 == pack_flags(f, zero_bit(f), subtract_bit(f), false, carry_flag_bit(f)),
        f | 0b0001_0000 == pack_flags(f, zero_bit(f), subtract_bit(f), half_carry_bit(f), true),
        f & 0b1110_1111 == pack_flags(f, zero_bit(f), subtract_bit(f), half_carry_bit(f), false),
{
}

/// The observed flag byte has a low nibble of 0 and the same four flags.
pub proof fn lemma_flag_mask(f: u8)
    by (bit_vector)
    ensures
        (f & 0xF0) % 16 == 0,
        (f & 0xF0) / 16 == f / 16,
        (f & 0xF0) & 0x0F == 0,
        zero_bit(f & 0xF0) == zero_bit(f),
        subtract_bit(f & 0xF0) == subtract_bit(f),
        half_carry_bit(f & 0xF0) == half_carry_bit(f),
        carry_flag_bit(f & 0xF0) == carry_flag_bit(f),
{
}

/// Shifts and rotations of a byte by one bit, and the swap of its nibbles.
pub proof fn lemma_shift_bits(value: u8, carry: u8)
    requires
        carry <= 1,
    ensures
        value >> 1 == value / 2,
        value >> 7 == value / 128,
        value & 1 == value % 2,
        (value >> 1) | (carry << 7) == value / 2 + carry * 128,
        (value << 1) | carry == (value * 2) % 256 + carry,
        (value << 1) | (value >> 7) == (value * 2) % 256 + value / 128,
        (value >> 1) | (value << 7) == value / 2 + (value % 2) * 128,
        (value << 4) | (value >> 4) == (value % 16) * 16 + value / 16,
        value ^ 0xFF == 255 - value,
{
    assert(value >> 1 == value / 2) by (bit_vector);
    assert(value >> 7 == value / 128) by (bit_vector);
    assert(value & 1 == value % 2) by (bit_vector);
    assert((value >> 1) | (carry << 7) == value / 2 + carry * 128) by (bit_vector)
        requires
            carry <= 1,
    ;
    assert((value << 1) | carry == (value * 2) % 256 + carry) by (bit_vector)
        requires
            carry <= 1,
    ;
    assert((value << 1) | (value >> 7) == (value * 2) % 256 + value / 128) by (bit_vector);
    assert((value >> 1) | (value << 7) == value / 2 + (value % 2) * 128) by (bit_vector);
    assert((value << 4) | (value >> 4) == (value % 16) * 16 + value / 16) by (bit_vector);
    assert(value ^ 0xFF == 255 - value) by (bit_vector);
}

} // verus!
