//! The boundary to the color-transform library.
//!
//! Profiles and transforms are opaque handles of the lcms2 crate; the library
//! composes them into a table without looking inside them. Each function here
//! makes exactly one lcms2 call; what the chain produces for a given profile
//! set is not modeled, so nothing downstream claims more of the table's
//! contents than these boundaries state.

use vstd::prelude::*;

verus! {

#[verifier::external_type_specification]
#[verifier::external_body]
pub struct ExGlobalContext(lcms2::GlobalContext);

#[verifier::external_type_specification]
#[verifier::external_body]
pub struct ExAllowCache(lcms2::AllowCache);

#[verifier::external_type_specification]
#[verifier::external_body]
#[verifier::reject_recursive_types(Context)]
pub struct ExProfile<Context>(lcms2::Profile<Context>);

#[verifier::external_type_specification]
#[verifier::external_body]
#[verifier::reject_recursive_types(InputPixelFormat)]
#[verifier::reject_recursive_types(OutputPixelFormat)]
#[verifier::reject_recursive_types(Context)]
#[verifier::reject_recursive_types(Flags)]
pub struct ExTransform<InputPixelFormat, OutputPixelFormat, Context, Flags>(
    lcms2::Transform<InputPixelFormat, OutputPixelFormat, Context, Flags>,
);

/// A failure reported by the color-transform library while composing a
/// transform, named after the library's own error vocabulary.
#[derive(PartialEq, Eq, Structural, Clone, Copy, Debug)]
pub enum BuildError {
    /// The library could not create the requested object.
    ObjectCreation,
    /// Requested data was empty or absent.
    MissingData,
    /// A string was unsupported or too long.
    InvalidString,
}

/// Relies on lcms2::Profile::new_srgb for the fixed sRGB output profile,
/// always the last link of the chain.
#[verifier::external_body]
pub(crate) fn srgb_profile() -> lcms2::Profile {
    lcms2::Profile::new_srgb()
}

/// Relies on lcms2::Transform::new: composes a direct two-profile transform
/// over packed four-byte RGBA words with perceptual rendering intent. The
/// word size matches the pixel format, so the library's format check cannot
/// panic; a null handle comes back as an error.
#[verifier::external_body]
pub(crate) fn transform_pair(
    input: &lcms2::Profile,
    output: &lcms2::Profile,
) -> Result<lcms2::Transform<u32, u32>, BuildError> {
    let fmt = lcms2::PixelFormat::RGBA_8;
    match lcms2::Transform::new(input, fmt, output, fmt, lcms2::Intent::Perceptual) {
        Ok(t) => Ok(t),
        Err(lcms2::Error::ObjectCreationError) => Err(BuildError::ObjectCreation),
        Err(lcms2::Error::MissingData) => Err(BuildError::MissingData),
        Err(lcms2::Error::InvalidString) => Err(BuildError::InvalidString),
    }
}

/// Relies on lcms2::Transform::new_multiprofile: composes the ordered
/// three-profile chain over packed four-byte RGBA words with perceptual
/// rendering intent, forbidding negative outputs and keeping the profile
/// sequence unreordered. The word size matches the pixel format, so the
/// library's format check cannot panic; a null handle comes back as an error.
#[verifier::external_body]
pub(crate) fn transform_chain3(
    first: &lcms2::Profile,
    second: &lcms2::Profile,
    third: &lcms2::Profile,
) -> Result<lcms2::Transform<u32, u32>, BuildError> {
    let fmt = lcms2::PixelFormat::RGBA_8;
    let flags = lcms2::Flags::NO_NEGATIVES | lcms2::Flags::KEEP_SEQUENCE;
    let profiles = [first, second, third];
    match lcms2::Transform::new_multiprofile(&profiles, fmt, fmt, lcms2::Intent::Perceptual, flags) {
        Ok(t) => Ok(t),
        Err(lcms2::Error::ObjectCreationError) => Err(BuildError::ObjectCreation),
        Err(lcms2::Error::MissingData) => Err(BuildError::MissingData),
        Err(lcms2::Error::InvalidString) => Err(BuildError::InvalidString),
    }
}

/// Relies on lcms2::Transform::transform_in_place: rewrites every packed RGBA
/// word of the slice through the transform. A mutable slice cannot change
/// length; with at most `u32::MAX` entries and a four-byte element matching
/// the format, every entry is processed and no panic path is reachable.
#[verifier::external_body]
pub(crate) fn apply_transform(t: &lcms2::Transform<u32, u32>, data: &mut Vec<u32>)
    requires
        old(data).len() <= 0xffff_ffff,
    ensures
        final(data).len() == old(data).len(),
{
    t.transform_in_place(data)
}

} // verus!
