//! One loop iteration's schedule: acquire a target, submit the recorded work
//! against it, present it, and pace the CPU against GPU completion through a
//! single tracked fence.
//!
//! Acquisition, execution and presentation are performed by the GPU
//! collaborator; their outcomes come back here as plain values, and every
//! decision taken on them — whether to submit, what the submission must wait
//! on, what the pacing state becomes — is made and verified here. Recycling
//! the resources of already-finished frames is a non-blocking collaborator
//! call with no effect on this state: the tracked fence is retired only by
//! being superseded.

use vstd::prelude::*;
use crate::fence::FencePacing;
use crate::fence::FrameFence;

verus! {

/// What target acquisition reported: a target index and the readiness signal
/// that must be waited on before rendering into it, or a failure — `Stale`
/// (the surface is out of date, recoverable by a rebuild) or `Fatal`
/// (unrecoverable, e.g. the device is lost).
#[derive(Clone, Copy, Debug, PartialEq, Eq)]
pub enum AcquisitionResult {
    Ready { target_index: usize, readiness: u64 },
    Stale,
    Fatal,
}

/// The ready-to-submit unit of work: the bound target index, the recorded
/// command sequence, and the readiness signal it must wait on before
/// execution. Signals and command sequences are opaque collaborator handles,
/// carried as numeric tokens.
#[derive(Clone, Copy, Debug, PartialEq, Eq)]
pub struct PresentationRequest {
    pub target_index: usize,
    pub readiness: u64,
    pub commands: u64,
}

/// The dependency chain of one submission, in the order the collaborator
/// must build it: first wait on the engine's own previous frame (when one is
/// still unconfirmed) joined with the acquired target's readiness signal,
/// then execute the commands, then present the target.
#[derive(Clone, Copy, Debug, PartialEq, Eq)]
pub struct SubmissionPlan {
    /// The pacing dependency: the previous frame's fence, when one is live.
    pub waits_on_previous: Option<FrameFence>,
    pub request: PresentationRequest,
}

/// What the submit-and-present chain reported back. `Stale` asks for a
/// rebuild; `Failure` is any other queue-level error, logged and treated as
/// if no work had been submitted.
#[derive(Clone, Copy, Debug, PartialEq, Eq)]
pub enum PresentOutcome {
    Presented,
    Stale,
    Failure,
}

/// The scheduler's own state: the pacing fence of the previous submission and
/// the count of frames submitted so far.
pub struct FrameScheduler {
    pub pacing: FencePacing,
    /// How many submissions have been confirmed presented; the next fence is
    /// stamped with this count plus one.
    pub frames_submitted: u64,
}

impl FrameScheduler {
    /// A fresh scheduler: nothing submitted, pacing already complete.
    pub fn new() -> (s: FrameScheduler)
        ensures
            s.pacing is Idle,
            s.frames_submitted == 0,
    {
        FrameScheduler { pacing: FencePacing::Idle, frames_submitted: 0 }
    }

    /// Plans one submission: packages the acquired target, its readiness
    /// signal and the recorded commands, and names the previous frame's fence
    /// as the pacing dependency exactly when one is live.
    pub fn plan_submission(&self, target_index: usize, readiness: u64, commands: u64) -> (p:
        SubmissionPlan)
        ensures
            p.request.target_index == target_index,
            p.request.readiness == readiness,
            p.request.commands == commands,
            match self.pacing {
                FencePacing::Pending(f) => p.waits_on_previous == Some(f),
                FencePacing::Idle => p.waits_on_previous is None,
            },
    {
        let waits_on_previous: Option<FrameFence> = match self.pacing {
            FencePacing::Pending(f) => Some(f),
            FencePacing::Idle => None,
        };
        SubmissionPlan {
            waits_on_previous,
            request: PresentationRequest { target_index, readiness, commands },
        }
    }

    /// Records what the submit-and-present chain reported. On success the new
    /// fence supersedes the previous one and is returned; on staleness or any
    /// other failure the pacing state resets to "already complete", so the
    /// loop never waits on a submission that never happened. Either way at
    /// most one fence stays live.
    pub fn record_outcome(&mut self, outcome: &PresentOutcome, target_generation: u64) -> (r:
        Option<FrameFence>)
        requires
            old(self).frames_submitted < u64::MAX,
        ensures
            match outcome {
                PresentOutcome::Presented => {
                    &&& final(self).frames_submitted == old(self).frames_submitted + 1
                    &&& r matches Some(f) && f == (FrameFence {
                        frame: final(self).frames_submitted,
                        generation: target_generation,
                    })
                    &&& final(self).pacing == FencePacing::Pending(r->Some_0)
                },
                _ => {
                    &&& final(self).pacing is Idle
                    &&& final(self).frames_submitted == old(self).frames_submitted
                    &&& r is None
                },
            },
            final(self).pacing.live_fences() <= 1,
    {
        match outcome {
            PresentOutcome::Presented => {
                self.frames_submitted = self.frames_submitted + 1;
                let fence = FrameFence {
                    frame: self.frames_submitted,
                    generation: target_generation,
                };
                self.pacing = FencePacing::Pending(fence);
                Some(fence)
            },
            _ => {
                self.pacing = FencePacing::Idle;
                None
            },
        }
    }
}

} // verus!
