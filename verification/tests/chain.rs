//! Behavior that exercises the real color-transform library: rebuilds
//! through the profile chain, equality-triggered invalidation with live
//! profiles, and the contrast scenario.

use gllcms::cache::{EnsureOutcome, LutCache};
use gllcms::config::AdjustmentConfig;
use gllcms::filter::FrameFilter;
use gllcms::pack::LUT_ENTRIES;
use gllcms::shader::corrected_color;

fn bchsw(brightness: f64, contrast: f64, hue: f64, saturation: f64) -> lcms2::Profile {
    lcms2::Profile::new_bchsw_abstract_context(
        lcms2::GlobalContext::new(),
        30,
        brightness,
        contrast,
        hue,
        saturation,
        None,
    )
    .expect("synthetic profile")
}

#[test]
fn one_changed_scalar_rebuilds_and_equal_snapshot_does_not() {
    let mut cache = LutCache::new();
    let custom = lcms2::Profile::new_srgb();

    let c1 = AdjustmentConfig::new(Some(String::from("input.icc")), 0, 1200, 0, 0).unwrap();
    let synth = bchsw(0.0, 1.2, 0.0, 0.0);
    let r1 = cache.ensure(c1, Some(&custom), Some(&synth));
    assert_eq!(r1, Ok(EnsureOutcome::Rebuilt));

    // A fresh snapshot, equal by value — the path is a newly allocated
    // string with the same characters — must not rebuild.
    let c2 = AdjustmentConfig::new(Some(String::from("input.icc")), 0, 1200, 0, 0).unwrap();
    let r2 = cache.ensure(c2, Some(&custom), Some(&synth));
    assert_eq!(r2, Ok(EnsureOutcome::Hit));

    // One scalar changed, everything else held: rebuild.
    let c3 = AdjustmentConfig::new(Some(String::from("input.icc")), 0, 1300, 0, 0).unwrap();
    let synth3 = bchsw(0.0, 1.3, 0.0, 0.0);
    let r3 = cache.ensure(c3, Some(&custom), Some(&synth3));
    assert_eq!(r3, Ok(EnsureOutcome::Rebuilt));
}

#[test]
fn contrast_changes_mid_gray_within_range() {
    let mut filter = FrameFilter::new();
    filter.start();

    let config = AdjustmentConfig::new(Some(String::from("srgb")), 0, 2000, 0, 0).unwrap();
    let custom = lcms2::Profile::new_srgb();
    let synth = bchsw(0.0, 2.0, 0.0, 0.0);
    let plan = filter
        .prepare_frame(config, Some(&custom), Some(&synth))
        .unwrap();
    assert!(plan.upload);

    let table = filter.table().unwrap();
    assert_eq!(table.len(), LUT_ENTRIES);
    let out = corrected_color(table, 128, 128, 128);
    // The doubled contrast must actually change the mid-gray; the channels
    // stay in range by construction of the packed 8-bit entries.
    assert_ne!(out, (128, 128, 128));
}

#[test]
fn rebuild_failure_leaves_previous_table_published() {
    let mut cache = LutCache::new();
    let r = cache.ensure(AdjustmentConfig::identity(), None, None);
    assert_eq!(r, Ok(EnsureOutcome::RebuiltIdentity));

    // The synthetic abstract profile operates in a non-RGB space, so a
    // two-profile transform straight from it cannot be composed over packed
    // RGBA words: the library reports a construction failure and the
    // previously published table must survive untouched.
    let c = AdjustmentConfig::new(None, 0, 1500, 0, 0).unwrap();
    let synth = bchsw(0.0, 1.5, 0.0, 0.0);
    let r = cache.ensure(c, None, Some(&synth));
    assert!(r.is_err());
    let table = cache.table_ref().unwrap();
    assert_eq!(table[5], 5);
}
