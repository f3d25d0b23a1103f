//! The surface capability report consumed when a target set is (re)built.

use vstd::prelude::*;
use crate::extent::Extent;

verus! {

/// What the surface provider reports about the platform window's presentable
/// surface, reduced to the values the presentation core decides on. Color
/// formats and composite-alpha modes are carried as the platform's own
/// numeric identifiers, in the platform's enumeration order; the core never
/// interprets them, it only selects among them.
#[derive(Clone, Debug)]
pub struct SurfaceCaps {
    /// Supported color formats, in the order the platform enumerates them.
    pub formats: Vec<u32>,
    /// Supported composite-alpha modes, in the order the platform enumerates
    /// them.
    pub alpha_modes: Vec<u32>,
    /// The minimum number of render targets the presentation engine will
    /// hand out; the chain is requested at exactly this count.
    pub min_image_count: u32,
    /// The surface's current size in physical pixels, or `None` when the
    /// platform cannot report one (the window no longer exists).
    pub current_extent: Option<Extent>,
}

impl SurfaceCaps {
    pub fn new(
        formats: Vec<u32>,
        alpha_modes: Vec<u32>,
        min_image_count: u32,
        current_extent: Option<Extent>,
    ) -> (c: SurfaceCaps)
        ensures
            c.formats == formats,
            c.alpha_modes == alpha_modes,
            c.min_image_count == min_image_count,
            c.current_extent == current_extent,
    {
        SurfaceCaps { formats, alpha_modes, min_image_count, current_extent }
    }
}

} // verus!
