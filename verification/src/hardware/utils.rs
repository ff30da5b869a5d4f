use vstd::prelude::*;

verus! {

/// The 16-bit value whose high byte is `higher` and whose low byte is `lower`.
pub open spec fn spec_concatenate_bytes(lower: u8, higher: u8) -> u16 {
    ((higher as u16) << 8) | (lower as u16)
}

/// The high byte of a 16-bit value.
pub open spec fn spec_high_byte(value: u16) -> u8 {
    (value >> 8) as u8
}

/// The low byte of a 16-bit value.
pub open spec fn spec_low_byte(value: u16) -> u8 {
    (value & 0xff) as u8
}

/// Composing two bytes is positional notation in base 256.
pub proof fn lemma_concatenate_is_base_256(lower: u8, higher: u8)
    ensures
        spec_concatenate_bytes(lower, higher) == 256 * higher + lower,
{
    assert((((higher as u16) << 8) | (lower as u16)) == 256 * (higher as u16) + (lower as u16))
        by (bit_vector);
}

/// Splitting a composed value gives the two bytes back.
pub proof fn lemma_split_of_concatenate(lower: u8, higher: u8)
    ensures
        spec_high_byte(spec_concatenate_bytes(lower, higher)) == higher,
        spec_low_byte(spec_concatenate_bytes(lower, higher)) == lower,
{
    assert(((((higher as u16) << 8) | (lower as u16)) >> 8) as u8 == higher) by (bit_vector);
    assert(((((higher as u16) << 8) | (lower as u16)) & 0xff) as u8 == lower) by (bit_vector);
}

/// Composing the two halves of a value gives the value back.
pub proof fn lemma_concatenate_of_split(value: u16)
    ensures
        spec_concatenate_bytes(spec_low_byte(value), spec_high_byte(value)) == value,
{
    assert(((((value >> 8) as u8) as u16) << 8) | (((value & 0xff) as u8) as u16) == value)
        by (bit_vector);
}

/// Joins a low and a high byte into one 16-bit value, high byte first.
pub fn concatenate_bytes(lower: u8, higher: u8) -> (value: u16)
    ensures
        value == spec_concatenate_bytes(lower, higher),
        value == 256 * higher + lower,
{
    proof {
        lemma_concatenate_is_base_256(lower, higher);
    }
    ((higher as u16) << 8) | (lower as u16)
}

} // verus!
