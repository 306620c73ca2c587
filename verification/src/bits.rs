//! Word-level arithmetic for software breakpoints.
//!
//! A breakpoint is planted by overwriting the low byte of the machine word at
//! the target address with the one-byte trap opcode, and removed by writing
//! the recorded original byte back while leaving the other bytes of the word
//! untouched.

use vstd::prelude::*;

verus! {

/// The one-byte trap opcode planted at a breakpoint address.
pub const TRAP_OPCODE: u8 = 0xcc;

/// The low byte of a machine word.
pub open spec fn spec_low_byte(w: u64) -> u8 {
    (w & 0xff) as u8
}

/// `w` with its low byte replaced by `b` and all other bytes unchanged.
pub open spec fn spec_with_low_byte(w: u64, b: u8) -> u64 {
    (w & 0xffff_ffff_ffff_ff00) | (b as u64)
}

/// The word that is written to plant a breakpoint: the trap opcode in the
/// low byte, the rest of `w` unchanged.
pub open spec fn spec_patch_word(w: u64) -> u64 {
    spec_with_low_byte(w, TRAP_OPCODE)
}

pub fn low_byte(w: u64) -> (b: u8)
    ensures
        b == spec_low_byte(w),
{
    assert(w & 0xff <= 0xff) by (bit_vector);
    (w & 0xff) as u8
}

pub fn with_low_byte(w: u64, b: u8) -> (r: u64)
    ensures
        r == spec_with_low_byte(w, b),
{
    (w & 0xffff_ffff_ffff_ff00) | (b as u64)
}

pub fn patch_word(w: u64) -> (r: u64)
    ensures
        r == spec_patch_word(w),
{
    with_low_byte(w, TRAP_OPCODE)
}

/// Planting a breakpoint puts the trap opcode in the low byte of the word and
/// leaves every other byte unchanged; restoring the patched word with the
/// byte recorded before patching gives back exactly the original word.
pub proof fn lemma_patch_restore(w: u64)
    ensures
        spec_low_byte(spec_patch_word(w)) == TRAP_OPCODE,
        spec_patch_word(w) & 0xffff_ffff_ffff_ff00 == w & 0xffff_ffff_ffff_ff00,
        spec_with_low_byte(spec_patch_word(w), spec_low_byte(w)) == w,
{
    assert((((w & 0xffff_ffff_ffff_ff00) | (0xcc as u64)) & 0xff) as u8 == 0xcc as u8)
        by (bit_vector);
    assert(((w & 0xffff_ffff_ffff_ff00) | (0xcc as u64)) & 0xffff_ffff_ffff_ff00 == w
        & 0xffff_ffff_ffff_ff00) by (bit_vector);
    assert(((((w & 0xffff_ffff_ffff_ff00) | (0xcc as u64)) & 0xffff_ffff_ffff_ff00) | (((w
        & 0xff) as u8) as u64)) == w) by (bit_vector);
}

/// Writing a byte into the low byte of a word is exact: the written byte can
/// be read back, and the other bytes of the word are what they were.
pub proof fn lemma_with_low_byte(w: u64, b: u8)
    ensures
        spec_low_byte(spec_with_low_byte(w, b)) == b,
        spec_with_low_byte(w, b) & 0xffff_ffff_ffff_ff00 == w & 0xffff_ffff_ffff_ff00,
{
    assert((((w & 0xffff_ffff_ffff_ff00) | (b as u64)) & 0xff) as u8 == b) by (bit_vector);
    assert(((w & 0xffff_ffff_ffff_ff00) | (b as u64)) & 0xffff_ffff_ffff_ff00 == w
        & 0xffff_ffff_ffff_ff00) by (bit_vector);
}

} // verus!
