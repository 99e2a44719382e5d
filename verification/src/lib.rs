//! GPU-oriented color-correction core: a cached lookup-table pipeline.
//!
//! Given a color-adjustment configuration (an optional input ICC profile plus
//! brightness, contrast, hue and saturation scalars), the library computes a
//! dense lookup table mapping every 24-bit RGB triplet to a corrected triplet,
//! decides when that expensive table must be rebuilt (equality-based cache
//! invalidation), and models the per-fragment lookup the shader performs.
//! GPU resource handling and the host framework's plumbing live outside the
//! library.

pub mod cache;
pub mod cms;
pub mod config;
pub mod filter;
pub mod lut;
pub mod pack;
pub mod shader;
