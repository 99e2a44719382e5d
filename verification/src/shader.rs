//! The correction shader's per-fragment contract, as a reference model.
//!
//! On the GPU the fragment stage samples a texel, packs its R, G and B
//! channels with the shared convention (alpha forced to zero), reads the
//! bound table at that index, unpacks the stored word and emits it opaque.
//! The functions here compute the very same colors on the CPU, so the
//! lookup semantics the shader must implement is stated and proved once,
//! against the same packing functions the table builder uses. The GLSL text
//! itself and its compilation are GPU plumbing outside the library.

use vstd::prelude::*;

use crate::lut::is_identity_table;
use crate::pack::lemma_pack_in_range;
use crate::pack::lemma_unpack_pack;
use crate::pack::pack;
use crate::pack::spec_blue;
use crate::pack::spec_green;
use crate::pack::spec_pack;
use crate::pack::spec_red;
use crate::pack::unpack;
use crate::pack::LUT_ENTRIES;

verus! {

/// The shader-visible binding point the table buffer is attached to before
/// every render.
pub const BINDING_SLOT: u32 = 0;

/// The least GLSL version offering both the pack/unpack-to-normalized
/// operations and a shader storage buffer.
pub const MIN_GLSL_VERSION: u32 = 430;

/// The color the correction emits for a texel: the table entry at the
/// texel's packed index, unpacked back into channels.
pub open spec fn spec_corrected(table: Seq<u32>, r: u8, g: u8, b: u8) -> (u8, u8, u8) {
    let entry = table[spec_pack(r, g, b) as int];
    (spec_red(entry), spec_green(entry), spec_blue(entry))
}

/// The corrected color for one texel, exactly as the shader computes it.
pub fn corrected_color(table: &Vec<u32>, r: u8, g: u8, b: u8) -> (out: (u8, u8, u8))
    requires
        table@.len() == LUT_ENTRIES,
    ensures
        out == spec_corrected(table@, r, g, b),
{
    proof {
        lemma_pack_in_range(r, g, b);
    }
    let idx = pack(r, g, b);
    let entry = table[idx as usize];
    unpack(entry)
}

/// One fragment with the diagnostic half-screen split: when the split gate
/// applies the correction the table entry decides the color, otherwise the
/// texel passes through unmodified. Alpha is emitted opaque either way.
pub fn fragment_color(table: &Vec<u32>, r: u8, g: u8, b: u8, apply: bool) -> (out: (u8, u8, u8))
    requires
        table@.len() == LUT_ENTRIES,
    ensures
        apply ==> out == spec_corrected(table@, r, g, b),
        !apply ==> out == (r, g, b),
{
    if apply {
        corrected_color(table, r, g, b)
    } else {
        (r, g, b)
    }
}

/// Identity-table law: looking any color up in the identity table returns
/// that color unchanged — the builder's identity special case and the
/// shader's lookup agree on the packing convention bit-for-bit.
pub proof fn lemma_identity_table_passthrough(table: Seq<u32>, r: u8, g: u8, b: u8)
    requires
        is_identity_table(table),
    ensures
        spec_corrected(table, r, g, b) == (r, g, b),
{
    lemma_pack_in_range(r, g, b);
    assert(table[spec_pack(r, g, b) as int] == spec_pack(r, g, b));
    lemma_unpack_pack(r, g, b);
}

} // verus!
