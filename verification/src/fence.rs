//! The in-flight frame marker and the pacing state built on it.

use vstd::prelude::*;

verus! {

/// The completion token for exactly one previously submitted frame: the
/// GPU-side signal that the work of frame `frame`, recorded against the
/// target chain of generation `generation`, has finished. Retired by being
/// superseded when the next frame is submitted.
#[derive(Clone, Copy, Debug, PartialEq, Eq, Structural)]
pub struct FrameFence {
    /// Which submission this token belongs to, counted from 1.
    pub frame: u64,
    /// The generation of the target set the frame was rendered against.
    pub generation: u64,
}

/// The pacing state of the scheduler: either no submission is unconfirmed
/// ("already complete"), or exactly one previous frame's fence is live. This
/// sum type is the whole backpressure mechanism — the CPU can never race more
/// than one frame of unconfirmed work ahead of the GPU, because there is no
/// state that tracks two fences.
#[derive(Clone, Copy, Debug, PartialEq, Eq, Structural)]
pub enum FencePacing {
    Idle,
    Pending(FrameFence),
}

impl FencePacing {
    /// How many live fences this pacing state tracks.
    pub open spec fn live_fences(self) -> nat {
        match self {
            FencePacing::Idle => 0,
            FencePacing::Pending(_) => 1,
        }
    }
}

/// Law: at most one live frame fence is ever tracked — the pacing state has
/// no shape holding two, so the CPU is bounded to one frame of unconfirmed
/// work ahead of the GPU in every reachable state.
pub proof fn lemma_single_fence_backpressure(pacing: FencePacing)
    ensures
        pacing.live_fences() <= 1,
{
}

} // verus!
