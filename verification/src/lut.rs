//! Building the dense lookup table.
//!
//! The table has one packed entry per 24-bit RGB triplet, and entry `i`
//! always describes the triplet obtained by unpacking `i`. The identity
//! configuration is special-cased to a verified identity table; any other
//! configuration goes through the profile chain: the optional custom input
//! profile, the synthetic adjustment profile, and the fixed sRGB output
//! profile, in that order.

use vstd::prelude::*;

use crate::cms;
use crate::cms::BuildError;
use crate::config::AdjustmentConfig;
use crate::config::ConfigView;
use crate::pack::LUT_BYTES;
use crate::pack::LUT_ENTRIES;

verus! {

/// A full-size table whose every entry maps a triplet to itself.
pub open spec fn is_identity_table(t: Seq<u32>) -> bool {
    &&& t.len() == LUT_ENTRIES
    &&& forall|i: int| 0 <= i < t.len() ==> t[i] == i
}

/// Enumerates the whole 24-bit domain in index order: the identity table,
/// which is also the input buffer a rebuild feeds to the transform.
pub fn identity_table() -> (t: Vec<u32>)
    ensures
        is_identity_table(t@),
{
    let mut t: Vec<u32> = Vec::with_capacity(LUT_ENTRIES);
    let mut i: usize = 0;
    while i < LUT_ENTRIES
        invariant
            i <= LUT_ENTRIES,
            t@.len() == i,
            forall|j: int| 0 <= j < i ==> t@[j] == j,
        decreases LUT_ENTRIES - i,
    {
        t.push(i as u32);
        i = i + 1;
    }
    t
}

/// How many bytes a full table occupies on the GPU: four per entry,
/// independent of the configuration that produced it.
pub fn table_byte_len(table: &Vec<u32>) -> (n: usize)
    requires
        table@.len() == LUT_ENTRIES,
    ensures
        n == LUT_BYTES,
{
    table.len() * 4
}

/// Builds the table for one configuration.
///
/// The identity configuration yields the identity table without touching the
/// transform library and cannot fail. Any other configuration composes the
/// profile chain — `custom` (present exactly when the configuration names a
/// profile path), then `synthetic` (the abstract profile for the four
/// scalars), then the fixed sRGB output — and maps the enumerated domain
/// through it in index order. A failure from the transform library is
/// returned, never papered over with a fallback table.
pub fn build_table(
    config: &AdjustmentConfig,
    custom: Option<&lcms2::Profile>,
    synthetic: Option<&lcms2::Profile>,
) -> (r: Result<Vec<u32>, BuildError>)
    requires
        config.wf(),
        custom is Some <==> config@.icc is Some,
        config@ != ConfigView::identity() ==> synthetic is Some,
    ensures
        r matches Ok(t) ==> t@.len() == LUT_ENTRIES,
        config@ == ConfigView::identity() ==> (r matches Ok(t) && is_identity_table(t@)),
{
    if config.is_identity() {
        return Ok(identity_table());
    }
    let synth = match synthetic {
        Some(p) => p,
        None => vstd::pervasive::unreached(),
    };
    let output = cms::srgb_profile();
    let transform = match custom {
        Some(input) => cms::transform_chain3(input, synth, &output),
        None => cms::transform_pair(synth, &output),
    };
    let transform = match transform {
        Ok(t) => t,
        Err(e) => {
            return Err(e);
        },
    };
    let mut table = identity_table();
    cms::apply_transform(&transform, &mut table);
    Ok(table)
}

} // verus!
