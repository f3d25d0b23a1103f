//! Surface extents in physical pixels, and the pipeline state derived from
//! them.

use vstd::prelude::*;

verus! {

/// A surface size in physical pixels (already converted from logical units by
/// the windowing collaborator).
#[derive(Clone, Copy, Debug, PartialEq, Eq, Structural)]
pub struct Extent {
    pub width: u32,
    pub height: u32,
}

impl Extent {
    /// An extent the presentation engine can build targets at: both dimensions
    /// are positive. A zero-area extent is what the platform reports mid-way
    /// through an interactive resize and is rejected by target construction.
    pub open spec fn spec_supported(self) -> bool {
        self.width > 0 && self.height > 0
    }

    pub fn new(width: u32, height: u32) -> (e: Extent)
        ensures
            e.width == width,
            e.height == height,
    {
        Extent { width, height }
    }

    pub fn supported(&self) -> (r: bool)
        ensures
            r == self.spec_supported(),
    {
        self.width > 0 && self.height > 0
    }
}

/// Extent-dependent pipeline state: a full-surface viewport with origin
/// `(0, 0)`. Scissoring is irrelevant to the fixed single-pass rendering this
/// engine drives, and the depth range is the collaborator's fixed default.
#[derive(Clone, Copy, Debug, PartialEq, Eq, Structural)]
pub struct PipelineConfig {
    pub viewport_width: u32,
    pub viewport_height: u32,
}

/// The viewport/scissor configuration valid for `extent`, recomputed only when
/// a rebuild actually succeeds, never speculatively.
pub fn pipeline_config(extent: Extent) -> (c: PipelineConfig)
    ensures
        c.viewport_width == extent.width,
        c.viewport_height == extent.height,
{
    PipelineConfig { viewport_width: extent.width, viewport_height: extent.height }
}

} // verus!
