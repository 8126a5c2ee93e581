//! Bit-field extraction on 8-bit and 16-bit operands.
//!
//! Bit positions are 1-indexed from the most significant bit, and ranges are
//! inclusive at both ends: extracting bits `start..=end` of a value returns
//! those bits right-justified in a same-width result, with all higher bits
//! zeroed.

use vstd::prelude::*;

verus! {

/// Bits `start..=end` of `v` (1-indexed from the MSB of the 16-bit operand),
/// right-justified: the low `16 - end` bits are dropped and a mask keeps the
/// `end - start + 1` selected bits.
pub open spec fn bit_field_u16(v: u16, start: u16, end: u16) -> u16
    recommends
        1 <= start <= end <= 16,
{
    (v >> ((16 - end) as u16)) & (0xffffu16 >> ((16 + start - end - 1) as u16))
}

/// Bits `start..=end` of `v` (1-indexed from the MSB of the 8-bit operand),
/// right-justified: the low `8 - end` bits are dropped and a mask keeps the
/// `end - start + 1` selected bits.
pub open spec fn bit_field_u8(v: u8, start: u8, end: u8) -> u8
    recommends
        1 <= start <= end <= 8,
{
    (v >> ((8 - end) as u8)) & (0xffu8 >> ((8 + start - end - 1) as u8))
}

/// Extracts the inclusive bit range `start..=end` of a 16-bit operand,
/// counted from 1 at the most significant bit, right-justified in the result.
pub fn get_bits(byte: u16, start: u16, end: u16) -> (r: u16)
    requires
        1 <= start <= end <= 16,
    ensures
        r == bit_field_u16(byte, start, end),
{
    let shaved_left = byte << (start - 1);
    let moved_back = shaved_left >> (start - 1);
    let shave_right = moved_back >> (16 - end);
    proof {
        assert(((byte << ((start - 1) as u16)) >> ((start - 1) as u16)) >> ((16 - end) as u16)
            == (byte >> ((16 - end) as u16)) & (0xffffu16 >> ((16 + start - end - 1) as u16)))
            by (bit_vector)
            requires
                1 <= start <= end <= 16,
        ;
    }
    shave_right
}

/// Extracts the inclusive bit range `start..=end` of an 8-bit operand,
/// counted from 1 at the most significant bit, right-justified in the result.
pub fn get_bits_u8(byte: u8, start: u8, end: u8) -> (r: u8)
    requires
        1 <= start <= end <= 8,
    ensures
        r == bit_field_u8(byte, start, end),
{
    let shaved_left = byte << (start - 1);
    let moved_back = shaved_left >> (start - 1);
    let shave_right = moved_back >> (8 - end);
    proof {
        assert(((byte << ((start - 1) as u8)) >> ((start - 1) as u8)) >> ((8 - end) as u8)
            == (byte >> ((8 - end) as u8)) & (0xffu8 >> ((8 + start - end - 1) as u8)))
            by (bit_vector)
            requires
                1 <= start <= end <= 8,
        ;
    }
    shave_right
}

/// A full-range extraction is the identity: selecting bits `1..=16` of a
/// 16-bit operand returns the operand unchanged.
pub proof fn lemma_bit_field_u16_full_range(v: u16)
    ensures
        bit_field_u16(v, 1, 16) == v,
{
    assert((v >> 0u16) & (0xffffu16 >> 0u16) == v) by (bit_vector);
}

/// A full-range extraction is the identity: selecting bits `1..=8` of an
/// 8-bit operand returns the operand unchanged.
pub proof fn lemma_bit_field_u8_full_range(v: u8)
    ensures
        bit_field_u8(v, 1, 8) == v,
{
    assert((v >> 0u8) & (0xffu8 >> 0u8) == v) by (bit_vector);
}

} // verus!
