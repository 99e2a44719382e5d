//! Behavior that needs no color-transform library: packing, configuration
//! equality and validation, the identity table, the cache and the filter
//! lifecycle.

use gllcms::cache::{EnsureOutcome, LutCache};
use gllcms::config::{AdjustmentConfig, ConfigError};
use gllcms::filter::FrameFilter;
use gllcms::lut::{identity_table, table_byte_len};
use gllcms::pack::{pack, unpack, LUT_BYTES, LUT_ENTRIES};
use gllcms::shader::{corrected_color, fragment_color, BINDING_SLOT};

#[test]
fn pack_convention_exact() {
    assert_eq!(pack(1, 2, 3), 0x030201);
    assert_eq!(pack(255, 0, 0), 0xff);
    assert_eq!(pack(0, 255, 0), 0xff00);
    assert_eq!(pack(0, 0, 255), 0xff0000);
    assert_eq!(unpack(0x030201), (1, 2, 3));
    assert_eq!(unpack(0xff), (255, 0, 0));
    assert_eq!(unpack(0xffffff), (255, 255, 255));
}

#[test]
fn pack_unpack_roundtrip() {
    let mut i: u32 = 0;
    while i < LUT_ENTRIES as u32 {
        let (r, g, b) = unpack(i);
        assert_eq!(pack(r, g, b), i);
        i += 251;
    }
    for i in [0u32, 1, 0x0000ff, 0x00ff00, 0xff0000, 0x123456, 0xffffff] {
        let (r, g, b) = unpack(i);
        assert_eq!(pack(r, g, b), i);
    }
}

#[test]
fn identity_table_maps_every_index_to_itself() {
    let t = identity_table();
    assert_eq!(t.len(), LUT_ENTRIES);
    for (i, &v) in t.iter().enumerate() {
        if v != i as u32 {
            panic!("entry {i} holds {v}");
        }
    }
}

#[test]
fn table_byte_len_is_full_buffer_size() {
    let t = identity_table();
    assert_eq!(table_byte_len(&t), LUT_BYTES);
    assert_eq!(LUT_BYTES, 16_777_216 * 4);
}

#[test]
fn hue_validation() {
    assert_eq!(
        AdjustmentConfig::new(None, 0, 1000, 360_000, 0),
        Err(ConfigError::HueOutOfRange)
    );
    assert_eq!(
        AdjustmentConfig::new(None, 0, 1000, -1, 0),
        Err(ConfigError::HueOutOfRange)
    );
    let mut c = AdjustmentConfig::new(None, 0, 1000, 359_999, 0).unwrap();
    assert_eq!(c.set_hue(-5), Err(ConfigError::HueOutOfRange));
    assert_eq!(c.hue, 359_999);
    assert_eq!(c.set_hue(180_000), Ok(()));
    assert_eq!(c.hue, 180_000);
}

#[test]
fn identity_detection() {
    let c = AdjustmentConfig::identity();
    assert!(c.is_identity());
    let mut c = AdjustmentConfig::identity();
    c.set_brightness(1);
    assert!(!c.is_identity());
    let mut c = AdjustmentConfig::identity();
    c.set_icc(Some(String::from("some.icc")));
    assert!(!c.is_identity());
}

#[test]
fn default_config_is_identity() {
    let c = AdjustmentConfig::default();
    assert!(c.is_identity());
    assert!(c == AdjustmentConfig::identity());
}

#[test]
fn config_equality_is_structural() {
    let a = AdjustmentConfig::new(Some(String::from("p.icc")), 1, 1200, 5, -3).unwrap();
    let b = AdjustmentConfig::new(Some(String::from("p.icc")), 1, 1200, 5, -3).unwrap();
    assert!(a == b);
    let c = AdjustmentConfig::new(Some(String::from("q.icc")), 1, 1200, 5, -3).unwrap();
    assert!(a != c);
    let d = AdjustmentConfig::new(Some(String::from("p.icc")), 1, 1201, 5, -3).unwrap();
    assert!(a != d);
}

#[test]
fn cache_hit_on_identity_config() {
    let mut cache = LutCache::new();
    let first = cache.ensure(AdjustmentConfig::identity(), None, None);
    assert_eq!(first, Ok(EnsureOutcome::RebuiltIdentity));
    let snapshot = cache.table_ref().unwrap().clone();
    let second = cache.ensure(AdjustmentConfig::identity(), None, None);
    assert_eq!(second, Ok(EnsureOutcome::Hit));
    assert!(cache.table_ref().unwrap() == &snapshot);
}

#[test]
fn filter_lifecycle_and_frame_plan() {
    let mut filter = FrameFilter::new();
    filter.start();
    assert!(filter.needs_rebuild(&AdjustmentConfig::identity()));
    let plan = filter
        .prepare_frame(AdjustmentConfig::identity(), None, None)
        .unwrap();
    assert_eq!(plan.outcome, EnsureOutcome::RebuiltIdentity);
    assert!(plan.upload);
    assert_eq!(plan.upload_bytes, LUT_BYTES);
    assert_eq!(plan.bind_slot, BINDING_SLOT);
    assert!(plan.identity_warning);
    assert!(!filter.needs_rebuild(&AdjustmentConfig::identity()));
    let plan = filter
        .prepare_frame(AdjustmentConfig::identity(), None, None)
        .unwrap();
    assert_eq!(plan.outcome, EnsureOutcome::Hit);
    assert!(!plan.upload);
    assert!(plan.identity_warning);
    filter.stop();
    assert!(filter.table().is_none());
}

#[test]
fn identity_table_renders_solid_red_unchanged() {
    let mut filter = FrameFilter::new();
    filter.start();
    filter
        .prepare_frame(AdjustmentConfig::identity(), None, None)
        .unwrap();
    let table = filter.table().unwrap();
    assert_eq!(corrected_color(table, 255, 0, 0), (255, 0, 0));
    assert_eq!(corrected_color(table, 128, 128, 128), (128, 128, 128));
    assert_eq!(corrected_color(table, 1, 2, 3), (1, 2, 3));
}

#[test]
fn fragment_split_passes_through_uncorrected_half() {
    let t = identity_table();
    assert_eq!(fragment_color(&t, 10, 20, 30, false), (10, 20, 30));
    assert_eq!(fragment_color(&t, 10, 20, 30, true), (10, 20, 30));
}
