//! The color-adjustment configuration: an optional input ICC profile path
//! plus four scalar corrections.
//!
//! Scalars are carried in thousandths, so the identity contrast is
//! [`SCALE`] and a hue displacement of one degree is `1000`. The host's
//! property system deals in real numbers; converting to and from
//! thousandths is its business, outside this library. Equality is
//! structural over all five fields — two configurations with equal-by-value
//! profile paths are equal — and drives the cache-invalidation policy.

use vstd::prelude::*;

verus! {

/// One unit of a scalar field, in thousandths.
pub const SCALE: i64 = 1000;

/// Default extra brightness: none.
pub const DEFAULT_BRIGHTNESS: i64 = 0;

/// Default contrast factor: one, in thousandths.
pub const DEFAULT_CONTRAST: i64 = 1000;

/// Default hue displacement: zero degrees.
pub const DEFAULT_HUE: i64 = 0;

/// Default extra saturation: none.
pub const DEFAULT_SATURATION: i64 = 0;

/// Upper bound (exclusive) of the hue field: 360 degrees, in thousandths.
pub const HUE_LIMIT: i64 = 360_000;

/// The mathematical content of a configuration: the profile path as a
/// character sequence, the scalars as unbounded integers.
pub ghost struct ConfigView {
    pub icc: Option<Seq<char>>,
    pub brightness: int,
    pub contrast: int,
    pub hue: int,
    pub saturation: int,
}

impl ConfigView {
    /// The identity adjustment: no profile, neutral scalars.
    pub open spec fn identity() -> ConfigView {
        ConfigView {
            icc: None,
            brightness: DEFAULT_BRIGHTNESS as int,
            contrast: DEFAULT_CONTRAST as int,
            hue: DEFAULT_HUE as int,
            saturation: DEFAULT_SATURATION as int,
        }
    }

    /// A hue displacement is a number of degrees in `[0, 360)`.
    pub open spec fn hue_valid(self) -> bool {
        0 <= self.hue < HUE_LIMIT as int
    }
}

/// A full snapshot of the five adjustable fields.
#[derive(Debug)]
pub struct AdjustmentConfig {
    /// Path to a custom input ICC profile, if any.
    pub icc: Option<String>,
    /// Extra brightness correction, in thousandths.
    pub brightness: i64,
    /// Extra contrast correction, in thousandths; `SCALE` is neutral.
    pub contrast: i64,
    /// Extra hue displacement, in thousandths of a degree, within `[0, 360)` degrees.
    pub hue: i64,
    /// Extra saturation correction, in thousandths.
    pub saturation: i64,
}

impl View for AdjustmentConfig {
    type V = ConfigView;

    open spec fn view(&self) -> ConfigView {
        ConfigView {
            icc: match self.icc {
                Some(s) => Some(s@),
                None => None,
            },
            brightness: self.brightness as int,
            contrast: self.contrast as int,
            hue: self.hue as int,
            saturation: self.saturation as int,
        }
    }
}

/// A configuration the host handed over that the library rejects.
#[derive(PartialEq, Eq, Structural, Clone, Copy, Debug)]
pub enum ConfigError {
    /// The hue displacement lies outside `[0, 360)` degrees.
    HueOutOfRange,
}

impl AdjustmentConfig {
    /// Every stored configuration keeps its hue displacement in range.
    pub open spec fn wf(self) -> bool {
        self@.hue_valid()
    }

    /// Builds a configuration snapshot, rejecting an out-of-range hue.
    pub fn new(
        icc: Option<String>,
        brightness: i64,
        contrast: i64,
        hue: i64,
        saturation: i64,
    ) -> (r: Result<AdjustmentConfig, ConfigError>)
        ensures
            0 <= hue < HUE_LIMIT <==> r is Ok,
            !(0 <= hue < HUE_LIMIT) <==> r == Result::<AdjustmentConfig, ConfigError>::Err(
                ConfigError::HueOutOfRange,
            ),
            r matches Ok(c) ==> c@ == (ConfigView {
                icc: match icc {
                    Some(s) => Some(s@),
                    None => None,
                },
                brightness: brightness as int,
                contrast: contrast as int,
                hue: hue as int,
                saturation: saturation as int,
            }) && c.wf(),
    {
        if 0 <= hue && hue < HUE_LIMIT {
            Ok(AdjustmentConfig { icc, brightness, contrast, hue, saturation })
        } else {
            Err(ConfigError::HueOutOfRange)
        }
    }

    /// The default configuration: the identity adjustment.
    pub fn identity() -> (r: AdjustmentConfig)
        ensures
            r@ == ConfigView::identity(),
            r.wf(),
    {
        AdjustmentConfig {
            icc: None,
            brightness: DEFAULT_BRIGHTNESS,
            contrast: DEFAULT_CONTRAST,
            hue: DEFAULT_HUE,
            saturation: DEFAULT_SATURATION,
        }
    }

    /// Whether this is the identity adjustment, the degenerate state the
    /// caller should warn about: the stage then changes no pixel.
    pub fn is_identity(&self) -> (r: bool)
        ensures
            r == (self@ == ConfigView::identity()),
    {
        let scalars_neutral = self.brightness == DEFAULT_BRIGHTNESS
            && self.contrast == DEFAULT_CONTRAST && self.hue == DEFAULT_HUE
            && self.saturation == DEFAULT_SATURATION;
        match &self.icc {
            Some(_) => false,
            None => scalars_neutral,
        }
    }

    /// Replaces the profile path.
    pub fn set_icc(&mut self, icc: Option<String>)
        ensures
            final(self)@ == (ConfigView {
                icc: match icc {
                    Some(s) => Some(s@),
                    None => None,
                },
                ..old(self)@
            }),
    {
        self.icc = icc;
    }

    /// Replaces the brightness correction.
    pub fn set_brightness(&mut self, brightness: i64)
        ensures
            final(self)@ == (ConfigView { brightness: brightness as int, ..old(self)@ }),
    {
        self.brightness = brightness;
    }

    /// Replaces the contrast correction.
    pub fn set_contrast(&mut self, contrast: i64)
        ensures
            final(self)@ == (ConfigView { contrast: contrast as int, ..old(self)@ }),
    {
        self.contrast = contrast;
    }

    /// Replaces the hue displacement, rejecting one outside `[0, 360)` degrees.
    pub fn set_hue(&mut self, hue: i64) -> (r: Result<(), ConfigError>)
        ensures
            0 <= hue < HUE_LIMIT <==> r is Ok,
            r is Ok ==> final(self)@ == (ConfigView { hue: hue as int, ..old(self)@ }),
            r is Err ==> *final(self) == *old(self) && r == Result::<(), ConfigError>::Err(
                ConfigError::HueOutOfRange,
            ),
    {
        if 0 <= hue && hue < HUE_LIMIT {
            self.hue = hue;
            Ok(())
        } else {
            Err(ConfigError::HueOutOfRange)
        }
    }

    /// Replaces the saturation correction.
    pub fn set_saturation(&mut self, saturation: i64)
        ensures
            final(self)@ == (ConfigView { saturation: saturation as int, ..old(self)@ }),
    {
        self.saturation = saturation;
    }
}

impl Default for AdjustmentConfig {
    /// The default configuration is the identity adjustment.
    fn default() -> (r: AdjustmentConfig)
        ensures
            r@ == ConfigView::identity(),
            r.wf(),
    {
        AdjustmentConfig::identity()
    }
}

impl PartialEq for AdjustmentConfig {
    /// Structural equality over all five fields; profile paths compare by value.
    fn eq(&self, other: &AdjustmentConfig) -> (r: bool) {
        let icc_eq = match (&self.icc, &other.icc) {
            (None, None) => true,
            (Some(a), Some(b)) => *a == *b,
            _ => false,
        };
        icc_eq && self.brightness == other.brightness && self.contrast == other.contrast
            && self.hue == other.hue && self.saturation == other.saturation
    }
}

impl vstd::std_specs::cmp::PartialEqSpecImpl for AdjustmentConfig {
    open spec fn obeys_eq_spec() -> bool {
        true
    }

    open spec fn eq_spec(&self, other: &AdjustmentConfig) -> bool {
        self@ == other@
    }
}

} // verus!
