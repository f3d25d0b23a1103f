//! The policy deciding when the target chain is rebuilt: an explicit resize
//! notification or a staleness report arms a pending-rebuild flag, and the
//! flag is cleared only by a rebuild that actually succeeded.

use vstd::prelude::*;
use crate::extent::Extent;
use crate::target_set::PresentationTargetSet;
use crate::target_set::RebuildOutcome;

verus! {

/// What `maybe_rebuild` decided this iteration.
#[derive(Debug)]
pub enum RebuildDecision {
    /// No rebuild was pending; nothing was done.
    NotRequested,
    /// The chain was reconstructed at the reported extent. The caller owns
    /// the new set and owes a refresh of all extent-dependent pipeline state.
    Rebuilt(PresentationTargetSet),
    /// The reported extent was rejected as unsupported — the expected race
    /// while a resize is in progress. The previous set stays in use and the
    /// flag stays armed, so the rebuild is retried next iteration.
    Skipped,
    /// The platform reported no extent at all: the window no longer exists,
    /// and nothing sensible can be drawn. Fatal.
    ExtentUnavailable,
}

/// Owns the pending-rebuild flag. The flag is set by a resize notification
/// from the windowing collaborator or by a `Stale` report from acquisition or
/// presentation, and cleared exactly when a rebuild succeeds.
pub struct ResizeCoordinator {
    pub rebuild_pending: bool,
}

impl ResizeCoordinator {
    /// A fresh coordinator with nothing pending.
    pub fn new() -> (c: ResizeCoordinator)
        ensures
            !c.rebuild_pending,
    {
        ResizeCoordinator { rebuild_pending: false }
    }

    /// The windowing collaborator reported an explicit resize.
    pub fn note_resize(&mut self)
        ensures
            final(self).rebuild_pending,
    {
        self.rebuild_pending = true;
    }

    /// Acquisition or presentation reported the surface stale.
    pub fn note_stale(&mut self)
        ensures
            final(self).rebuild_pending,
    {
        self.rebuild_pending = true;
    }

    pub fn is_rebuild_pending(&self) -> (r: bool)
        ensures
            r == self.rebuild_pending,
    {
        self.rebuild_pending
    }

    /// When a rebuild is pending, reconstructs `set` at the surface's
    /// reported extent. On success the flag is cleared; on a skipped
    /// (unsupported in-flight extent) rebuild the flag stays armed and the
    /// previous set is returned untouched — correct for a window mid-drag,
    /// where every intermediate size may be momentarily invalid.
    pub fn maybe_rebuild(&mut self, set: &PresentationTargetSet, reported: Option<Extent>) -> (r:
        RebuildDecision)
        requires
            set.wf(),
            set.generation < u64::MAX,
        ensures
            !old(self).rebuild_pending ==> r is NotRequested && *final(self) == *old(self),
            old(self).rebuild_pending ==> match r {
                RebuildDecision::NotRequested => false,
                RebuildDecision::Rebuilt(next) => {
                    &&& reported matches Some(e) && e.spec_supported()
                    &&& PresentationTargetSet::rebuilt_from(*set, reported->Some_0, next)
                    &&& !final(self).rebuild_pending
                },
                RebuildDecision::Skipped => {
                    &&& reported matches Some(e) && !e.spec_supported()
                    &&& final(self).rebuild_pending
                },
                RebuildDecision::ExtentUnavailable => {
                    &&& reported is None
                    &&& final(self).rebuild_pending
                },
            },
    {
        if !self.rebuild_pending {
            return RebuildDecision::NotRequested;
        }
        let new_extent: Extent = match reported {
            Some(e) => e,
            None => { return RebuildDecision::ExtentUnavailable; },
        };
        match set.rebuild(new_extent) {
            RebuildOutcome::Rebuilt(next) => {
                self.rebuild_pending = false;
                RebuildDecision::Rebuilt(next)
            },
            RebuildOutcome::Skipped => RebuildDecision::Skipped,
        }
    }
}

} // verus!
