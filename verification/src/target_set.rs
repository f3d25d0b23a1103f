//! The chain of presentable render targets and its lifecycle: built once at
//! startup, replaced wholesale — never mutated in place — whenever the
//! surface is resized or reported stale.

use vstd::prelude::*;
use crate::caps::SurfaceCaps;
use crate::extent::Extent;

verus! {

/// One render target of the chain: an image the GPU renders into and that can
/// subsequently be shown on screen. The `generation` stamp ties it to the
/// target set that owns it, so work recorded against a superseded chain can be
/// recognized as stale.
#[derive(Clone, Copy, Debug, PartialEq, Eq, Structural)]
pub struct TargetImage {
    pub extent: Extent,
    pub format: u32,
    pub generation: u64,
}

/// The render destination bound to one target image: the framebuffer-
/// equivalent attaching image `image_index` to the engine's single fixed
/// color-only render pass (load = clear, store = keep, no depth/stencil).
#[derive(Clone, Copy, Debug, PartialEq, Eq, Structural)]
pub struct RenderDestination {
    pub image_index: usize,
    pub extent: Extent,
    pub format: u32,
    pub generation: u64,
}

/// Why a target set could not be constructed at startup. Each of these is
/// fatal: no valid configuration exists to retry.
#[derive(Clone, Copy, Debug, PartialEq, Eq, Structural)]
pub enum CreateError {
    /// The platform cannot report the surface's current size: the window no
    /// longer exists, so nothing sensible can be drawn.
    ExtentUnavailable,
    /// The platform enumerated no composite-alpha mode.
    NoAlphaMode,
    /// The platform enumerated no color format.
    NoSupportedFormat,
    /// The reported extent has zero area; at startup there is no previous
    /// chain to keep, so this cannot be skipped.
    UnsupportedExtent,
}

/// The outcome of rebuilding a target set at a new extent. A rejected
/// in-flight extent is an expected race during an interactive resize, not a
/// failure: the caller keeps the previous, still valid set and retries on the
/// next iteration.
#[derive(Debug)]
pub enum RebuildOutcome {
    Rebuilt(PresentationTargetSet),
    Skipped,
}

/// The chain of render targets currently bound to the surface, the
/// destinations rendering into them, and the generation stamp that
/// invalidates references held by work recorded against an earlier chain.
#[derive(Clone, Debug, PartialEq, Eq)]
pub struct PresentationTargetSet {
    pub extent: Extent,
    pub format: u32,
    pub alpha_mode: u32,
    /// The image count the chain was requested at; every rebuild keeps it.
    pub min_image_count: u32,
    pub images: Vec<TargetImage>,
    pub destinations: Vec<RenderDestination>,
    /// Increments on every rebuild; never reused.
    pub generation: u64,
}

impl PresentationTargetSet {
    /// Well-formedness: one destination per image, exactly the requested
    /// count of each, every element stamped with the set's own extent, format
    /// and generation, and destination `i` bound to image `i`.
    pub open spec fn wf(self) -> bool {
        &&& self.images.len() == self.min_image_count
        &&& self.destinations.len() == self.min_image_count
        &&& self.extent.spec_supported()
        &&& forall|i: int|
            0 <= i < self.images.len() ==> self.images[i] == (TargetImage {
                extent: self.extent,
                format: self.format,
                generation: self.generation,
            })
        &&& forall|i: int|
            0 <= i < self.destinations.len() ==> self.destinations[i] == (RenderDestination {
                image_index: i as usize,
                extent: self.extent,
                format: self.format,
                generation: self.generation,
            })
    }

    /// The relation between the inputs of a successful `create` and its
    /// result.
    pub open spec fn created_from(caps: SurfaceCaps, set: PresentationTargetSet) -> bool {
        &&& caps.current_extent matches Some(cur) && set.extent == cur
        &&& caps.formats.len() > 0 && set.format == caps.formats[0]
        &&& caps.alpha_modes.len() > 0 && set.alpha_mode == caps.alpha_modes[0]
        &&& set.min_image_count == caps.min_image_count
        &&& set.generation == 0
        &&& set.wf()
    }

    /// The relation between a target set, a requested extent, and the set a
    /// successful rebuild replaces it with.
    pub open spec fn rebuilt_from(
        prev: PresentationTargetSet,
        new_extent: Extent,
        next: PresentationTargetSet,
    ) -> bool {
        &&& next.extent == new_extent
        &&& next.format == prev.format
        &&& next.alpha_mode == prev.alpha_mode
        &&& next.min_image_count == prev.min_image_count
        &&& next.generation == prev.generation + 1
        &&& next.wf()
    }

    /// Builds the target chain from the surface's capability report: the
    /// first enumerated color format and the first enumerated composite-alpha
    /// mode (a deliberately simple, deterministic policy — no ranking), the
    /// surface's reported current extent as the one source of truth for size,
    /// and exactly `min_image_count` images, each with a destination bound to
    /// the fixed color-only render pass.
    pub fn create(caps: &SurfaceCaps) -> (r: Result<PresentationTargetSet, CreateError>)
        ensures
            match r {
                Ok(set) => Self::created_from(*caps, set),
                Err(e) => match e {
                    CreateError::ExtentUnavailable => caps.current_extent is None,
                    CreateError::NoAlphaMode => {
                        &&& caps.current_extent is Some
                        &&& caps.alpha_modes.len() == 0
                    },
                    CreateError::NoSupportedFormat => {
                        &&& caps.current_extent is Some
                        &&& caps.alpha_modes.len() > 0
                        &&& caps.formats.len() == 0
                    },
                    CreateError::UnsupportedExtent => {
                        &&& caps.current_extent matches Some(cur)
                            && !cur.spec_supported()
                        &&& caps.alpha_modes.len() > 0
                        &&& caps.formats.len() > 0
                    },
                },
            },
            r is Ok <==> {
                &&& caps.current_extent matches Some(cur) && cur.spec_supported()
                &&& caps.alpha_modes.len() > 0
                &&& caps.formats.len() > 0
            },
    {
        let cur: Extent = match caps.current_extent {
            Some(e) => e,
            None => { return Err(CreateError::ExtentUnavailable); },
        };
        if caps.alpha_modes.len() == 0 {
            return Err(CreateError::NoAlphaMode);
        }
        if caps.formats.len() == 0 {
            return Err(CreateError::NoSupportedFormat);
        }
        if !cur.supported() {
            return Err(CreateError::UnsupportedExtent);
        }
        let format: u32 = caps.formats[0];
        let alpha_mode: u32 = caps.alpha_modes[0];
        let (images, destinations) = Self::build_chain(cur, format, 0, caps.min_image_count);
        Ok(PresentationTargetSet {
            extent: cur,
            format,
            alpha_mode,
            min_image_count: caps.min_image_count,
            images,
            destinations,
            generation: 0,
        })
    }

    /// Reconstructs the entire chain and its destinations at `new_extent`,
    /// one generation up. `Skipped` — an expected race while a resize is in
    /// progress, not an error — is returned exactly when the requested extent
    /// is unsupported (zero area); the previous set is untouched and the
    /// caller retries on the next iteration.
    pub fn rebuild(&self, new_extent: Extent) -> (r: RebuildOutcome)
        requires
            self.wf(),
            self.generation < u64::MAX,
        ensures
            r is Skipped <==> !new_extent.spec_supported(),
            r matches RebuildOutcome::Rebuilt(next) ==> Self::rebuilt_from(*self, new_extent, next),
    {
        if !new_extent.supported() {
            return RebuildOutcome::Skipped;
        }
        let generation: u64 = self.generation + 1;
        let (images, destinations) = Self::build_chain(
            new_extent,
            self.format,
            generation,
            self.min_image_count,
        );
        RebuildOutcome::Rebuilt(PresentationTargetSet {
            extent: new_extent,
            format: self.format,
            alpha_mode: self.alpha_mode,
            min_image_count: self.min_image_count,
            images,
            destinations,
            generation,
        })
    }

    /// Builds `count` images and, for each, the destination binding it to the
    /// render pass, all stamped with the same extent, format and generation.
    fn build_chain(extent: Extent, format: u32, generation: u64, count: u32) -> (r: (
        Vec<TargetImage>,
        Vec<RenderDestination>,
    ))
        requires
            extent.spec_supported(),
        ensures
            r.0.len() == count,
            r.1.len() == count,
            forall|i: int|
                0 <= i < r.0.len() ==> r.0[i] == (TargetImage { extent, format, generation }),
            forall|i: int|
                0 <= i < r.1.len() ==> r.1[i] == (RenderDestination {
                    image_index: i as usize,
                    extent,
                    format,
                    generation,
                }),
    {
        let mut images: Vec<TargetImage> = Vec::new();
        let mut destinations: Vec<RenderDestination> = Vec::new();
        let mut i: u32 = 0;
        while i < count
            invariant
                i <= count,
                images.len() == i,
                destinations.len() == i,
                forall|j: int|
                    0 <= j < images.len() ==> images[j] == (TargetImage {
                        extent,
                        format,
                        generation,
                    }),
                forall|j: int|
                    0 <= j < destinations.len() ==> destinations[j] == (RenderDestination {
                        image_index: j as usize,
                        extent,
                        format,
                        generation,
                    }),
            decreases count - i,
        {
            images.push(TargetImage { extent, format, generation });
            destinations.push(RenderDestination {
                image_index: images.len() - 1,
                extent,
                format,
                generation,
            });
            i = i + 1;
        }
        (images, destinations)
    }

    /// How many render targets the chain currently holds.
    pub fn image_count(&self) -> (n: usize)
        ensures
            n == self.images.len(),
    {
        self.images.len()
    }
}

/// Law: every target set accepted by `create` has one destination per image,
/// and exactly the requested minimum image count of each.
pub proof fn lemma_create_counts(caps: SurfaceCaps, set: PresentationTargetSet)
    requires
        PresentationTargetSet::created_from(caps, set),
    ensures
        set.images.len() == set.destinations.len(),
        set.images.len() == caps.min_image_count,
{
}

/// Law: the generation stamp strictly increases across every successful
/// rebuild, so work recorded against a superseded chain can never be mistaken
/// for work against the current one.
pub proof fn lemma_generation_monotonic(
    prev: PresentationTargetSet,
    new_extent: Extent,
    next: PresentationTargetSet,
)
    requires
        PresentationTargetSet::rebuilt_from(prev, new_extent, next),
    ensures
        next.generation > prev.generation,
{
}

/// Law: rebuilding is idempotent under repeated identical extents — a second
/// rebuild at the same extent yields a set with the same image count, format
/// and extent as the first.
pub proof fn lemma_rebuild_idempotent(
    first: PresentationTargetSet,
    new_extent: Extent,
    second: PresentationTargetSet,
    third: PresentationTargetSet,
)
    requires
        PresentationTargetSet::rebuilt_from(first, new_extent, second),
        PresentationTargetSet::rebuilt_from(second, new_extent, third),
    ensures
        third.images.len() == second.images.len(),
        third.destinations.len() == second.destinations.len(),
        third.format == second.format,
        third.extent == second.extent,
{
}

} // verus!
