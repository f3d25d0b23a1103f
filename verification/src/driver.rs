//! The top-level cooperative loop, as decisions: one single-threaded
//! iteration polls the event source, rebuilds the target chain when asked to,
//! acquires a target, submits and presents against it, and terminates on a
//! close request. The collaborator performing the GPU and windowing work
//! drives these entry points once per iteration, in this order, and hands
//! each outside outcome back as a plain value.

use vstd::prelude::*;
use crate::coordinator::RebuildDecision;
use crate::coordinator::ResizeCoordinator;
use crate::extent::Extent;
use crate::extent::PipelineConfig;
use crate::extent::pipeline_config;
use crate::fence::FencePacing;
use crate::fence::FrameFence;
use crate::scheduler::AcquisitionResult;
use crate::scheduler::FrameScheduler;
use crate::scheduler::PresentOutcome;
use crate::scheduler::SubmissionPlan;
use crate::target_set::PresentationTargetSet;

verus! {

/// One notification from the event source, already classified.
#[derive(Clone, Copy, Debug, PartialEq, Eq)]
pub enum WindowSignal {
    CloseRequested,
    /// The window was resized. The size carried here is advisory: the
    /// surface's reported extent at rebuild time is the source of truth.
    ResizeRequested(Extent),
}

/// Whether a batch of signals contains a close request.
pub open spec fn has_close(events: Seq<WindowSignal>) -> bool {
    exists|i: int| 0 <= i < events.len() && events[i] is CloseRequested
}

/// Whether a batch of signals contains a resize request.
pub open spec fn has_resize(events: Seq<WindowSignal>) -> bool {
    exists|i: int| 0 <= i < events.len() && events[i] is ResizeRequested
}

/// What to do after the event batch of this iteration was observed.
#[derive(Clone, Copy, Debug, PartialEq, Eq, Structural)]
pub enum IterationStart {
    /// A close request has been observed; the loop terminates now, without
    /// attempting any pending rebuild.
    Exit,
    /// No close request so far; run the iteration.
    Run,
}

/// What the rebuild phase of this iteration did.
#[derive(Clone, Copy, Debug, PartialEq, Eq)]
pub enum RebuildStep {
    /// No rebuild was pending.
    NotNeeded,
    /// The chain was replaced; all extent-dependent pipeline state must now
    /// be refreshed to the returned configuration.
    Applied(PipelineConfig),
    /// The reported extent was rejected as unsupported; the previous chain
    /// stays in use and the rebuild stays pending.
    SkippedUnsupported,
    /// The platform reported no extent: the window no longer exists. Fatal.
    FatalNoExtent,
}

/// What the acquisition phase of this iteration decided.
#[derive(Clone, Copy, Debug, PartialEq, Eq)]
pub enum AcquireStep {
    /// A target is ready: record commands against it and submit, waiting on
    /// `readiness` first.
    Proceed { target_index: usize, readiness: u64 },
    /// The surface is stale: no submission this iteration; a rebuild is now
    /// pending for the next one.
    SkipIteration,
    /// Acquisition failed unrecoverably (device lost, or an index outside
    /// the chain): the loop aborts.
    Abort,
}

/// The state owned by the loop: the current target chain, the scheduler's
/// pacing, the rebuild policy, and the termination flag. No other mutable
/// state is shared with the collaborator, and the chain is only ever replaced
/// as a whole.
pub struct RenderLoopDriver {
    pub target_set: PresentationTargetSet,
    pub scheduler: FrameScheduler,
    pub coordinator: ResizeCoordinator,
    pub close_requested: bool,
}

impl RenderLoopDriver {
    pub open spec fn wf(self) -> bool {
        self.target_set.wf()
    }

    /// Starts a loop around a freshly created target set: nothing pending,
    /// nothing submitted, not closing.
    pub fn new(target_set: PresentationTargetSet) -> (d: RenderLoopDriver)
        requires
            target_set.wf(),
        ensures
            d.wf(),
            d.target_set == target_set,
            !d.close_requested,
            !d.coordinator.rebuild_pending,
            d.scheduler.pacing is Idle,
            d.scheduler.frames_submitted == 0,
    {
        RenderLoopDriver {
            target_set,
            scheduler: FrameScheduler::new(),
            coordinator: ResizeCoordinator::new(),
            close_requested: false,
        }
    }

    /// Classifies one polled batch of signals: a close request arms the
    /// termination flag, a resize arms the pending-rebuild flag. Nothing
    /// else changes, and neither flag is ever cleared here.
    pub fn observe_events(&mut self, events: &Vec<WindowSignal>)
        ensures
            final(self).close_requested == (old(self).close_requested || has_close(events@)),
            final(self).coordinator.rebuild_pending == (old(self).coordinator.rebuild_pending
                || has_resize(events@)),
            final(self).target_set == old(self).target_set,
            final(self).scheduler == old(self).scheduler,
    {
        let mut i: usize = 0;
        while i < events.len()
            invariant
                i <= events.len(),
                self.close_requested == (old(self).close_requested || exists|j: int|
                    0 <= j < i && events@[j] is CloseRequested),
                self.coordinator.rebuild_pending == (old(self).coordinator.rebuild_pending
                    || exists|j: int| 0 <= j < i && events@[j] is ResizeRequested),
                self.target_set == old(self).target_set,
                self.scheduler == old(self).scheduler,
            decreases events.len() - i,
        {
            match events[i] {
                WindowSignal::CloseRequested => {
                    self.close_requested = true;
                },
                WindowSignal::ResizeRequested(_) => {
                    self.coordinator.rebuild_pending = true;
                },
            }
            i = i + 1;
        }
    }

    /// Step one of an iteration: observe the event batch, then decide whether
    /// the loop terminates. Termination is decided before any pending rebuild
    /// is attempted, so a close request never triggers reconstruction work.
    pub fn begin_iteration(&mut self, events: &Vec<WindowSignal>) -> (r: IterationStart)
        ensures
            final(self).close_requested == (old(self).close_requested || has_close(events@)),
            final(self).coordinator.rebuild_pending == (old(self).coordinator.rebuild_pending
                || has_resize(events@)),
            final(self).target_set == old(self).target_set,
            final(self).scheduler == old(self).scheduler,
            r is Exit <==> final(self).close_requested,
    {
        self.observe_events(events);
        if self.close_requested {
            IterationStart::Exit
        } else {
            IterationStart::Run
        }
    }

    /// Step two: when a rebuild is pending, replace the target chain at the
    /// surface's reported extent. On success the pending flag clears and the
    /// refreshed pipeline configuration for the new extent is returned; a
    /// skipped rebuild leaves the chain and the flag exactly as they were.
    pub fn run_rebuild(&mut self, reported: Option<Extent>) -> (r: RebuildStep)
        requires
            old(self).wf(),
            old(self).target_set.generation < u64::MAX,
        ensures
            final(self).wf(),
            final(self).close_requested == old(self).close_requested,
            final(self).scheduler == old(self).scheduler,
            !old(self).coordinator.rebuild_pending ==> r is NotNeeded && *final(self) == *old(
                self,
            ),
            old(self).coordinator.rebuild_pending ==> match r {
                RebuildStep::NotNeeded => false,
                RebuildStep::Applied(cfg) => {
                    &&& reported matches Some(e) && e.spec_supported()
                    &&& PresentationTargetSet::rebuilt_from(
                        old(self).target_set,
                        reported->Some_0,
                        final(self).target_set,
                    )
                    &&& cfg.viewport_width == final(self).target_set.extent.width
                    &&& cfg.viewport_height == final(self).target_set.extent.height
                    &&& !final(self).coordinator.rebuild_pending
                },
                RebuildStep::SkippedUnsupported => {
                    &&& reported matches Some(e) && !e.spec_supported()
                    &&& final(self).target_set == old(self).target_set
                    &&& final(self).coordinator.rebuild_pending
                },
                RebuildStep::FatalNoExtent => {
                    &&& reported is None
                    &&& final(self).target_set == old(self).target_set
                    &&& final(self).coordinator.rebuild_pending
                },
            },
    {
        match self.coordinator.maybe_rebuild(&self.target_set, reported) {
            RebuildDecision::NotRequested => RebuildStep::NotNeeded,
            RebuildDecision::Rebuilt(next) => {
                self.target_set = next;
                RebuildStep::Applied(pipeline_config(self.target_set.extent))
            },
            RebuildDecision::Skipped => RebuildStep::SkippedUnsupported,
            RebuildDecision::ExtentUnavailable => RebuildStep::FatalNoExtent,
        }
    }

    /// Step three: decide on the acquisition outcome. A ready target inside
    /// the current chain proceeds to submission; a stale surface skips this
    /// iteration's submission entirely and arms the rebuild flag; anything
    /// else — device loss, or an index the chain does not contain — aborts.
    pub fn observe_acquisition(&mut self, outcome: AcquisitionResult) -> (r: AcquireStep)
        ensures
            final(self).target_set == old(self).target_set,
            final(self).scheduler == old(self).scheduler,
            final(self).close_requested == old(self).close_requested,
            match outcome {
                AcquisitionResult::Ready { target_index, readiness } => {
                    &&& final(self).coordinator == old(self).coordinator
                    &&& if target_index < old(self).target_set.images.len() {
                        r == (AcquireStep::Proceed { target_index, readiness })
                    } else {
                        r is Abort
                    }
                },
                AcquisitionResult::Stale => {
                    &&& r is SkipIteration
                    &&& final(self).coordinator.rebuild_pending
                },
                AcquisitionResult::Fatal => {
                    &&& r is Abort
                    &&& final(self).coordinator == old(self).coordinator
                },
            },
    {
        match outcome {
            AcquisitionResult::Ready { target_index, readiness } => {
                if target_index < self.target_set.image_count() {
                    AcquireStep::Proceed { target_index, readiness }
                } else {
                    AcquireStep::Abort
                }
            },
            AcquisitionResult::Stale => {
                self.coordinator.note_stale();
                AcquireStep::SkipIteration
            },
            AcquisitionResult::Fatal => AcquireStep::Abort,
        }
    }

    /// Plans this iteration's submission: the commands wait on the previous
    /// frame's fence (when one is live) joined with the acquired target's
    /// readiness signal, execute, and present — in that order.
    pub fn plan_submission(&self, target_index: usize, readiness: u64, commands: u64) -> (p:
        SubmissionPlan)
        ensures
            p.request.target_index == target_index,
            p.request.readiness == readiness,
            p.request.commands == commands,
            match self.scheduler.pacing {
                FencePacing::Pending(f) => p.waits_on_previous == Some(f),
                FencePacing::Idle => p.waits_on_previous is None,
            },
    {
        self.scheduler.plan_submission(target_index, readiness, commands)
    }

    /// Step four: record what the submit-and-present chain reported. Success
    /// leaves exactly one live fence, stamped with the current chain's
    /// generation; staleness arms the rebuild flag; and on staleness or any
    /// other failure the pacing resets to "already complete", so the loop
    /// keeps going instead of waiting on work that was never submitted.
    pub fn observe_present(&mut self, outcome: PresentOutcome) -> (r: Option<FrameFence>)
        requires
            old(self).scheduler.frames_submitted < u64::MAX,
        ensures
            final(self).target_set == old(self).target_set,
            final(self).close_requested == old(self).close_requested,
            final(self).scheduler.pacing.live_fences() <= 1,
            match outcome {
                PresentOutcome::Presented => {
                    &&& final(self).coordinator == old(self).coordinator
                    &&& final(self).scheduler.frames_submitted == old(
                        self,
                    ).scheduler.frames_submitted + 1
                    &&& r matches Some(f) && f == (FrameFence {
                        frame: final(self).scheduler.frames_submitted,
                        generation: old(self).target_set.generation,
                    })
                    &&& final(self).scheduler.pacing == FencePacing::Pending(r->Some_0)
                },
                PresentOutcome::Stale => {
                    &&& final(self).coordinator.rebuild_pending
                    &&& final(self).scheduler.pacing is Idle
                    &&& final(self).scheduler.frames_submitted == old(
                        self,
                    ).scheduler.frames_submitted
                    &&& r is None
                },
                PresentOutcome::Failure => {
                    &&& final(self).coordinator == old(self).coordinator
                    &&& final(self).scheduler.pacing is Idle
                    &&& final(self).scheduler.frames_submitted == old(
                        self,
                    ).scheduler.frames_submitted
                    &&& r is None
                },
            },
    {
        if matches!(outcome, PresentOutcome::Stale) {
            self.coordinator.note_stale();
        }
        self.scheduler.record_outcome(&outcome, self.target_set.generation)
    }

    pub fn should_exit(&self) -> (r: bool)
        ensures
            r == self.close_requested,
    {
        self.close_requested
    }
}

} // verus!
