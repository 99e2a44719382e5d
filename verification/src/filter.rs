//! Per-frame orchestration as an explicit state machine.
//!
//! The filter is stopped until the host's GPU context comes up and stopped
//! again after teardown; starting twice or stopping twice is a lifecycle
//! violation the host must not commit, so both transitions demand the
//! opposite state. Each frame, the filter ensures the table reflects the
//! configuration snapshot and hands back a plan: whether the table bytes
//! must be re-uploaded (only after an actual rebuild), at which binding
//! slot to attach the buffer, and whether to warn that the stage is a
//! no-op. Performing the upload, bind, render and unbind on the GPU is the
//! caller's side of the bargain.

use vstd::prelude::*;

use crate::cache::EnsureOutcome;
use crate::cache::LutCache;
use crate::cms::BuildError;
use crate::config::AdjustmentConfig;
use crate::config::ConfigView;
use crate::lut::is_identity_table;
use crate::pack::LUT_BYTES;
use crate::shader::BINDING_SLOT;

verus! {

/// What the render path must do for one frame.
pub struct FramePlan {
    /// What ensuring the configuration took.
    pub outcome: EnsureOutcome,
    /// Whether the table changed and its bytes must be re-uploaded before
    /// binding; a cache hit never re-uploads.
    pub upload: bool,
    /// Byte count of an upload: the full table, never a part of it.
    pub upload_bytes: usize,
    /// The shader-visible slot to bind the buffer to before rendering.
    pub bind_slot: u32,
    /// Whether to surface that the identity configuration makes the stage a
    /// pass-through, which the user likely did not intend.
    pub identity_warning: bool,
}

/// The filter's lifecycle: stopped without GPU resources, or started with a
/// live cache tied to the GPU context.
pub struct FrameFilter {
    started: bool,
    cache: LutCache,
}

impl FrameFilter {
    /// Whether the filter currently owns its GPU-lifetime state.
    pub closed spec fn is_started(self) -> bool {
        self.started
    }

    /// The cache tied to the current GPU context.
    pub closed spec fn cache(self) -> LutCache {
        self.cache
    }

    /// The filter never holds a malformed cache.
    pub open spec fn wf(self) -> bool {
        self.cache().wf()
    }

    /// A freshly created filter: stopped, nothing cached.
    pub fn new() -> (r: FrameFilter)
        ensures
            !r.is_started(),
            r.wf(),
            r.cache().cached_config() is None,
    {
        FrameFilter { started: false, cache: LutCache::new() }
    }

    /// The host's GPU context came up. Starting an already-started filter is
    /// a lifecycle violation, excluded by contract; the caller facing an
    /// unchecked host must treat it as a programming error, not skip it.
    pub fn start(&mut self)
        requires
            !old(self).is_started(),
        ensures
            final(self).is_started(),
            final(self).wf(),
            final(self).cache().cached_config() is None,
    {
        self.started = true;
        self.cache = LutCache::new();
    }

    /// The host tears the GPU context down: the cache dies with it.
    /// Stopping an already-stopped filter is a lifecycle violation,
    /// excluded by contract.
    pub fn stop(&mut self)
        requires
            old(self).is_started(),
        ensures
            !final(self).is_started(),
            final(self).wf(),
            final(self).cache().cached_config() is None,
    {
        self.started = false;
        self.cache = LutCache::new();
    }

    /// Readies one frame: ensures the table reflects `config` and plans the
    /// GPU work. An upload is ordered exactly when the table was rebuilt,
    /// and always covers the full table; the binding slot never varies. A
    /// cache hit and an identity rebuild consult no transform library and
    /// cannot fail; only a chain rebuild can. On a build failure the frame
    /// must be aborted and the previous table stays published, untouched. The profile arguments are consulted only
    /// on a rebuild, as with [`LutCache::ensure`].
    pub fn prepare_frame(
        &mut self,
        config: AdjustmentConfig,
        custom: Option<&lcms2::Profile>,
        synthetic: Option<&lcms2::Profile>,
    ) -> (r: Result<FramePlan, BuildError>)
        requires
            old(self).is_started(),
            old(self).wf(),
            config.wf(),
            !old(self).cache().hits(config@) ==> (custom is Some <==> config@.icc is Some),
            !old(self).cache().hits(config@) && config@ != ConfigView::identity()
                ==> synthetic is Some,
        ensures
            final(self).is_started(),
            final(self).wf(),
            old(self).cache().hits(config@) ==> r is Ok,
            !old(self).cache().hits(config@) && config@ == ConfigView::identity() ==> r is Ok,
            r matches Ok(plan) ==> ({
                &&& (plan.outcome == EnsureOutcome::Hit) <==> old(self).cache().hits(config@)
                &&& (plan.outcome == EnsureOutcome::RebuiltIdentity) <==> (!old(self).cache().hits(
                    config@) && config@ == ConfigView::identity())
                &&& (plan.outcome == EnsureOutcome::Rebuilt) <==> (!old(self).cache().hits(config@)
                    && config@ != ConfigView::identity())
                &&& plan.upload <==> !old(self).cache().hits(config@)
                &&& plan.upload_bytes == LUT_BYTES
                &&& plan.bind_slot == BINDING_SLOT
                &&& plan.identity_warning <==> config@ == ConfigView::identity()
                &&& final(self).cache().cached_config() == Some(config@)
                &&& config@ == ConfigView::identity() ==> is_identity_table(
                    final(self).cache().cached_table())
                &&& old(self).cache().hits(config@) ==> final(self).cache().cached_table() == old(
                    self).cache().cached_table()
            }),
            r is Err ==> final(self).cache().cached_config() == old(self).cache().cached_config()
                && final(self).cache().cached_table() == old(self).cache().cached_table(),
    {
        let identity_warning = config.is_identity();
        match self.cache.ensure(config, custom, synthetic) {
            Ok(outcome) => {
                let upload = !matches!(outcome, EnsureOutcome::Hit);
                Ok(
                    FramePlan {
                        outcome,
                        upload,
                        upload_bytes: LUT_BYTES,
                        bind_slot: BINDING_SLOT,
                        identity_warning,
                    },
                )
            },
            Err(e) => Err(e),
        }
    }

    /// Whether the next frame with `config` will rebuild the table — and so
    /// whether profiles must be gathered before preparing it.
    pub fn needs_rebuild(&self, config: &AdjustmentConfig) -> (r: bool)
        ensures
            r == !self.cache().hits(config@),
    {
        !self.cache.is_hit(config)
    }

    /// The table published for the current configuration, for the caller to
    /// upload; absent until the first ensured frame.
    pub fn table(&self) -> (r: Option<&Vec<u32>>)
        ensures
            match r {
                Some(t) => self.cache().cached_config() is Some && t@ == self.cache(
                ).cached_table(),
                None => self.cache().cached_config() is None,
            },
    {
        self.cache.table_ref()
    }
}

} // verus!
