//! Byte/word composition helpers shared by the register file and the CPU.

use vstd::prelude::*;

verus! {

/// The 16-bit word whose high byte is `msb` and whose low byte is `lsb`.
pub open spec fn spec_word(msb: u8, lsb: u8) -> u16 {
    ((msb as u16) << 8) | (lsb as u16)
}

pub fn bytes_to_word(msb: u8, lsb: u8) -> (w: u16)
    ensures
        w == spec_word(msb, lsb),
{
    ((msb as u16) << 8) | (lsb as u16)
}

pub fn word_to_bytes(word: u16) -> (r: (u8, u8))
    ensures
        r.0 == (word >> 8) as u8,
        r.1 == word as u8,
{
    ((word >> 8) as u8, word as u8)
}

/// Splitting a word into its two bytes and composing them again is the identity.
pub proof fn lemma_word_roundtrip(w: u16)
    by (bit_vector)
    ensures
        spec_word((w >> 8) as u8, w as u8) == w,
{
}

/// Composing two bytes and taking the word apart again yields the bytes.
pub proof fn lemma_word_decompose(msb: u8, lsb: u8)
    by (bit_vector)
    ensures
        (spec_word(msb, lsb) >> 8) as u8 == msb,
        spec_word(msb, lsb) as u8 == lsb,
{
}

} // verus!
