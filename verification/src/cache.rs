//! Equality-based cache invalidation for the lookup table.
//!
//! The cache pairs the last-applied configuration with the table built for
//! it. Ensuring a configuration is a no-op exactly when the incoming
//! snapshot equals the stored one structurally; any difference — one scalar
//! changed, the profile path changed — rebuilds the table and republishes
//! config and table together. A failed rebuild leaves the previous state
//! untouched, so no caller ever observes a partially-built table.

use vstd::prelude::*;

use crate::cms::BuildError;
use crate::config::AdjustmentConfig;
use crate::config::ConfigView;
use crate::lut;
use crate::lut::is_identity_table;
use crate::pack::LUT_ENTRIES;

verus! {

/// The last-applied configuration and the table built for it.
struct CacheState {
    config: AdjustmentConfig,
    table: Vec<u32>,
}

/// What one call of [`LutCache::ensure`] did.
#[derive(PartialEq, Eq, Structural, Clone, Copy, Debug)]
pub enum EnsureOutcome {
    /// The stored configuration equals the incoming one: nothing was built.
    Hit,
    /// The incoming configuration is the identity: the identity table was
    /// published without consulting the transform library. The caller should
    /// warn that the stage is a no-op pass-through.
    RebuiltIdentity,
    /// The table was rebuilt through the profile chain.
    Rebuilt,
}

/// Owns the current configuration snapshot and the table most recently
/// computed for it; empty until the first ensure.
pub struct LutCache {
    state: Option<CacheState>,
}

impl LutCache {
    /// The stored configuration, if a table has been published.
    pub closed spec fn cached_config(self) -> Option<ConfigView> {
        match self.state {
            Some(cs) => Some(cs.config@),
            None => None,
        }
    }

    /// The stored table; meaningful only when a configuration is stored.
    pub closed spec fn cached_table(self) -> Seq<u32> {
        match self.state {
            Some(cs) => cs.table@,
            None => Seq::empty(),
        }
    }

    /// Every published table is full-sized, its configuration is valid, and
    /// the identity configuration is never paired with anything but the
    /// identity table.
    pub closed spec fn wf(self) -> bool {
        match self.state {
            Some(cs) => {
                &&& cs.config.wf()
                &&& cs.table@.len() == LUT_ENTRIES
                &&& cs.config@ == ConfigView::identity() ==> is_identity_table(cs.table@)
            },
            None => true,
        }
    }

    /// Ensuring `c` performs no work exactly when `c` is already stored.
    pub open spec fn hits(self, c: ConfigView) -> bool {
        self.cached_config() == Some(c)
    }

    /// An empty cache: no configuration applied yet, so the first ensure
    /// always builds.
    pub fn new() -> (r: LutCache)
        ensures
            r.cached_config() is None,
            r.wf(),
    {
        LutCache { state: None }
    }

    /// Whether ensuring `config` would be a no-op: the stored snapshot
    /// equals it structurally. Lets the caller skip gathering profiles for
    /// a frame that needs no rebuild.
    pub fn is_hit(&self, config: &AdjustmentConfig) -> (r: bool)
        ensures
            r == self.hits(config@),
    {
        match &self.state {
            Some(cs) => cs.config == *config,
            None => false,
        }
    }

    /// The published table, for the caller to upload; absent until the
    /// first ensure stores one.
    pub fn table_ref(&self) -> (r: Option<&Vec<u32>>)
        ensures
            match r {
                Some(t) => self.cached_config() is Some && t@ == self.cached_table(),
                None => self.cached_config() is None,
            },
    {
        match &self.state {
            Some(cs) => Some(&cs.table),
            None => None,
        }
    }

    /// Makes the stored table reflect `config` and says what that took.
    ///
    /// On structural equality with the stored snapshot this is a no-op that
    /// keeps the published table bit-for-bit; otherwise the table is rebuilt
    /// — from the verified identity path or through the profile chain — and
    /// config and table are republished together. On a build failure the
    /// previous state stays valid and untouched. The profile arguments are
    /// consulted only on a rebuild: `custom` must be present exactly when
    /// the configuration names a profile path, and `synthetic` whenever a
    /// non-identity rebuild may occur.
    pub fn ensure(
        &mut self,
        config: AdjustmentConfig,
        custom: Option<&lcms2::Profile>,
        synthetic: Option<&lcms2::Profile>,
    ) -> (r: Result<EnsureOutcome, BuildError>)
        requires
            old(self).wf(),
            config.wf(),
            !old(self).hits(config@) ==> (custom is Some <==> config@.icc is Some),
            !old(self).hits(config@) && config@ != ConfigView::identity() ==> synthetic is Some,
        ensures
            final(self).wf(),
            (r == Ok::<EnsureOutcome, BuildError>(EnsureOutcome::Hit)) <==> old(self).hits(config@),
            old(self).hits(config@) ==> final(self).cached_config() == old(self).cached_config()
                && final(self).cached_table() == old(self).cached_table(),
            r is Ok ==> final(self).cached_config() == Some(config@)
                && final(self).cached_table().len() == LUT_ENTRIES,
            r is Ok && config@ == ConfigView::identity() ==> is_identity_table(
                final(self).cached_table()),
            !old(self).hits(config@) && config@ == ConfigView::identity() ==> r == Ok::<
                EnsureOutcome, BuildError>(EnsureOutcome::RebuiltIdentity),
            r is Ok && !old(self).hits(config@) && config@ != ConfigView::identity() ==> r == Ok::<
                EnsureOutcome, BuildError>(EnsureOutcome::Rebuilt),
            r is Err ==> final(self).cached_config() == old(self).cached_config()
                && final(self).cached_table() == old(self).cached_table(),
    {
        let hit = match &self.state {
            Some(cs) => cs.config == config,
            None => false,
        };
        if hit {
            return Ok(EnsureOutcome::Hit);
        }
        let outcome = if config.is_identity() {
            EnsureOutcome::RebuiltIdentity
        } else {
            EnsureOutcome::Rebuilt
        };
        match lut::build_table(&config, custom, synthetic) {
            Ok(table) => {
                self.state = Some(CacheState { config, table });
                Ok(outcome)
            },
            Err(e) => Err(e),
        }
    }
}

/// Cache-hit law: once a configuration has been ensured, ensuring the very
/// same configuration again performs no build — the state satisfies the
/// hit predicate under which `ensure` returns `Hit` and leaves both the
/// stored configuration and the published table untouched.
pub proof fn lemma_second_ensure_hits(cache: LutCache, config: AdjustmentConfig)
    requires
        cache.cached_config() == Some(config@),
    ensures
        cache.hits(config@),
{
}

/// Equality-triggered-rebuild law: two configuration snapshots are equal —
/// and only then does `ensure` skip the build — exactly when all five
/// fields agree, the profile path comparing by value. Changing any single
/// field makes them unequal; a fresh path string with the same characters
/// does not.
pub proof fn lemma_config_eq_is_fieldwise(a: ConfigView, b: ConfigView)
    ensures
        (a == b) <==> (a.icc == b.icc && a.brightness == b.brightness && a.contrast == b.contrast
            && a.hue == b.hue && a.saturation == b.saturation),
{
}

} // verus!
