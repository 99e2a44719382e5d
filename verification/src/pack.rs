//! The packing convention shared by the table builder and the shader.
//!
//! A 24-bit table index holds the red channel in the low byte, green in the
//! next, blue in the third, and a zero alpha byte on top. The shader packs a
//! sampled texel with the same convention before indexing the table, so both
//! sides must agree bit-for-bit; every fact the rest of the library needs
//! about that agreement is proved here.

use vstd::prelude::*;

verus! {

/// Number of entries in a full lookup table: one per 24-bit RGB triplet.
pub const LUT_ENTRIES: usize = 0x100_0000;

/// Bytes occupied by a full table: one 32-bit word per entry.
pub const LUT_BYTES: usize = 0x400_0000;

/// The index a red/green/blue triplet maps to: red in the low byte,
/// green and blue above it, alpha (the top byte) always zero.
pub open spec fn spec_pack(r: u8, g: u8, b: u8) -> u32 {
    (r as u32) | ((g as u32) << 8) | ((b as u32) << 16)
}

/// Red channel of a packed word.
pub open spec fn spec_red(i: u32) -> u8 {
    (i & 0xff) as u8
}

/// Green channel of a packed word.
pub open spec fn spec_green(i: u32) -> u8 {
    ((i >> 8) & 0xff) as u8
}

/// Blue channel of a packed word.
pub open spec fn spec_blue(i: u32) -> u8 {
    ((i >> 16) & 0xff) as u8
}

/// Packing any triplet lands inside the 24-bit table domain.
pub proof fn lemma_pack_in_range(r: u8, g: u8, b: u8)
    ensures
        spec_pack(r, g, b) < 0x100_0000,
{
    assert(((r as u32) | ((g as u32) << 8) | ((b as u32) << 16)) < 0x100_0000)
        by (bit_vector);
}

/// Unpacking an in-range index and packing the channels again restores the
/// index exactly: the convention loses nothing over the 24-bit domain.
pub proof fn lemma_pack_unpack(i: u32)
    requires
        i < 0x100_0000,
    ensures
        spec_pack(spec_red(i), spec_green(i), spec_blue(i)) == i,
{
    assert((((i & 0xff) as u8) as u32) | (((((i >> 8) & 0xff) as u8) as u32) << 8)
        | (((((i >> 16) & 0xff) as u8) as u32) << 16) == i) by (bit_vector)
        requires
            i < 0x100_0000u32,
    ;
}

/// Packing a triplet and reading the channels back restores the triplet:
/// the two directions of the convention are mutually inverse.
pub proof fn lemma_unpack_pack(r: u8, g: u8, b: u8)
    ensures
        spec_red(spec_pack(r, g, b)) == r,
        spec_green(spec_pack(r, g, b)) == g,
        spec_blue(spec_pack(r, g, b)) == b,
{
    let i = (r as u32) | ((g as u32) << 8) | ((b as u32) << 16);
    assert((i & 0xff) as u8 == r && ((i >> 8) & 0xff) as u8 == g
        && ((i >> 16) & 0xff) as u8 == b) by (bit_vector)
        requires
            i == (r as u32) | ((g as u32) << 8) | ((b as u32) << 16),
    ;
}

/// Executable packing, exactly the specification convention.
pub fn pack(r: u8, g: u8, b: u8) -> (i: u32)
    ensures
        i == spec_pack(r, g, b),
        i < LUT_ENTRIES,
{
    proof {
        lemma_pack_in_range(r, g, b);
    }
    (r as u32) | ((g as u32) << 8) | ((b as u32) << 16)
}

/// Executable unpacking, exactly the specification convention.
pub fn unpack(i: u32) -> (rgb: (u8, u8, u8))
    ensures
        rgb.0 == spec_red(i),
        rgb.1 == spec_green(i),
        rgb.2 == spec_blue(i),
{
    ((i & 0xff) as u8, ((i >> 8) & 0xff) as u8, ((i >> 16) & 0xff) as u8)
}

} // verus!
