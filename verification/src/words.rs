//! Register-word codec.
//!
//! A field instrument exposes each 32-bit measurement as two consecutive
//! unsigned 16-bit holding registers: the first word carries the high half
//! of the IEEE-754 binary32 pattern, the second the low half. Decoding is
//! total: every pair of words yields exactly one 32-bit pattern, and every
//! pattern splits back into the same pair. The embedding program
//! reinterprets the pattern as a single-precision number; non-finite
//! patterns (an exponent field of all ones) propagate unchanged and must be
//! guarded against by consumers.

use vstd::prelude::*;

verus! {

/// Two consecutive 16-bit holding-register words read from one bus address.
/// Transient: it exists only for the duration of one decode.
#[derive(Clone, Copy, PartialEq, Eq, Structural, Debug)]
pub struct RegisterPair {
    /// High half of the 32-bit pattern.
    pub first: u16,
    /// Low half of the 32-bit pattern.
    pub second: u16,
}

/// The 32-bit pattern with `first` in the high 16 bits and `second` in the
/// low 16 bits.
pub open spec fn spec_combine(first: u16, second: u16) -> u32 {
    (first * 0x10000 + second) as u32
}

/// The high 16 bits of a 32-bit pattern.
pub open spec fn spec_high_word(bits: u32) -> u16 {
    (bits / 0x10000) as u16
}

/// The low 16 bits of a 32-bit pattern.
pub open spec fn spec_low_word(bits: u32) -> u16 {
    (bits % 0x10000) as u16
}

/// Combines a register pair into the 32-bit pattern it encodes.
pub fn combine_words(pair: RegisterPair) -> (bits: u32)
    ensures
        bits == spec_combine(pair.first, pair.second),
{
    let first = pair.first;
    let second = pair.second;
    proof {
        assert(((first as u32) << 16u32) | (second as u32)
            == (first * 0x10000 + second) as u32) by (bit_vector);
    }
    ((first as u32) << 16u32) | (second as u32)
}

/// Splits a 32-bit pattern back into the register pair that encodes it.
pub fn split_words(bits: u32) -> (pair: RegisterPair)
    ensures
        pair.first == spec_high_word(bits),
        pair.second == spec_low_word(bits),
{
    proof {
        assert((bits >> 16u32) as u16 == (bits / 0x10000) as u16) by (bit_vector);
        assert((bits & 0xFFFF) as u16 == (bits % 0x10000) as u16) by (bit_vector);
    }
    RegisterPair { first: (bits >> 16u32) as u16, second: (bits & 0xFFFF) as u16 }
}

/// Decoding then re-encoding a register pair is the identity: splitting the
/// combined pattern recovers exactly the two words, for every pair of words
/// and therefore for every binary32 pattern, finite or not.
pub proof fn lemma_register_round_trip(first: u16, second: u16)
    ensures
        spec_high_word(spec_combine(first, second)) == first,
        spec_low_word(spec_combine(first, second)) == second,
{
    assert((((first * 0x10000 + second) as u32) / 0x10000) as u16 == first) by (bit_vector);
    assert((((first * 0x10000 + second) as u32) % 0x10000) as u16 == second) by (bit_vector);
}

/// The converse direction: re-combining the two halves of any 32-bit
/// pattern yields the pattern itself.
pub proof fn lemma_bits_round_trip(bits: u32)
    ensures
        spec_combine(spec_high_word(bits), spec_low_word(bits)) == bits,
{
    assert((((bits / 0x10000) as u16) * 0x10000 + ((bits % 0x10000) as u16)) as u32 == bits)
        by (bit_vector);
}

/// The exponent field of a binary32 pattern: bits 23 through 30.
pub open spec fn spec_exponent_field(bits: u32) -> u32 {
    (bits >> 23u32) & 0xFF
}

/// Whether a binary32 pattern encodes a finite number: the exponent field
/// is not all ones (all ones encodes an infinity or a NaN).
pub open spec fn spec_is_finite(bits: u32) -> bool {
    spec_exponent_field(bits) != 0xFF
}

/// Tests whether a binary32 pattern encodes a finite number. A corrected
/// rate whose pattern fails this test is a computation fault, not a valid
/// measurement.
pub fn bits_is_finite(bits: u32) -> (r: bool)
    ensures
        r == spec_is_finite(bits),
{
    ((bits >> 23u32) & 0xFF) != 0xFF
}

} // verus!
