//! Swapchain configuration and its validity state machine.
//!
//! The swapchain is rebuilt whenever the surface and the image chain fall
//! out of step: an explicit resize notification, or an acquire or present
//! call reporting the chain suboptimal or out of date, marks the state
//! stale; the next rebuild queries the surface capabilities and re-derives
//! extent, image count and present mode.

use vstd::prelude::*;

verus! {

/// A surface extent in pixels.
#[derive(Clone, Copy, PartialEq, Eq, Structural, Debug)]
pub struct Extent2D {
    pub width: u32,
    pub height: u32,
}

/// What the surface reports when a swapchain is created or recreated.
#[derive(Clone, Copy, PartialEq, Eq, Structural, Debug)]
pub struct SurfaceCaps {
    /// The fewest images the surface accepts in a chain.
    pub min_image_count: u32,
    /// The most images the surface accepts, or `None` for no limit.
    pub max_image_count: Option<u32>,
    /// The extent the surface pins the chain to, or `None` when the client
    /// picks (as compositors that size the surface to the chain report).
    pub current_extent: Option<Extent2D>,
}

/// A presentation mode, by latency behaviour.
#[derive(Clone, Copy, PartialEq, Eq, Structural, Debug)]
pub enum PresentMode {
    /// No queueing: lowest latency, may tear.
    Immediate,
    /// Single-entry queue: low latency without tearing.
    Mailbox,
    /// Standard vsync queue; every device supports it.
    Fifo,
}

/// The image count the renderer asks for: double buffering, raised to the
/// surface's minimum and clamped to its maximum.
pub open spec fn chosen_image_count(caps: SurfaceCaps) -> int {
    let wanted = if caps.min_image_count > 2 {
        caps.min_image_count as int
    } else {
        2int
    };
    match caps.max_image_count {
        None => wanted,
        Some(limit) => if wanted > limit {
            limit as int
        } else {
            wanted
        },
    }
}

/// The extent the chain is built with: what the surface pins, else the
/// client's fallback.
pub open spec fn chosen_extent(caps: SurfaceCaps, fallback: Extent2D) -> Extent2D {
    match caps.current_extent {
        Some(e) => e,
        None => fallback,
    }
}

/// Whether `mode` occurs in `modes`.
pub open spec fn mode_available(modes: Seq<PresentMode>, mode: PresentMode) -> bool {
    exists|i: int| 0 <= i < modes.len() && modes[i] == mode
}

/// The present mode the renderer picks: the lowest-latency mode the surface
/// offers, with the always-supported vsync queue as the fallback.
pub open spec fn chosen_present_mode(modes: Seq<PresentMode>) -> PresentMode {
    if mode_available(modes, PresentMode::Immediate) {
        PresentMode::Immediate
    } else if mode_available(modes, PresentMode::Mailbox) {
        PresentMode::Mailbox
    } else {
        PresentMode::Fifo
    }
}

/// Picks the image count of [`chosen_image_count`].
pub fn clamp_image_count(caps: &SurfaceCaps) -> (r: u32)
    ensures
        r as int == chosen_image_count(*caps),
        (match caps.max_image_count {
            None => true,
            Some(limit) => limit >= 2,
        }) ==> r >= 2,
        match caps.max_image_count {
            None => true,
            Some(limit) => r <= limit,
        },
{
    let wanted = if caps.min_image_count > 2 {
        caps.min_image_count
    } else {
        2
    };
    match caps.max_image_count {
        None => wanted,
        Some(limit) => if wanted > limit {
            limit
        } else {
            wanted
        },
    }
}

/// Picks the extent of [`chosen_extent`].
pub fn pick_extent(caps: &SurfaceCaps, fallback: Extent2D) -> (r: Extent2D)
    ensures
        r == chosen_extent(*caps, fallback),
{
    match caps.current_extent {
        Some(e) => e,
        None => fallback,
    }
}

fn mode_in(modes: &Vec<PresentMode>, mode: PresentMode) -> (r: bool)
    ensures
        r == mode_available(modes@, mode),
{
    let mut i: usize = 0;
    while i < modes.len()
        invariant
            i <= modes@.len(),
            forall|j: int| 0 <= j < i ==> modes@[j] != mode,
        decreases modes@.len() - i,
    {
        if modes[i] == mode {
            return true;
        }
        i = i + 1;
    }
    false
}

/// Picks the present mode of [`chosen_present_mode`] from what the surface
/// offers.
pub fn pick_present_mode(modes: &Vec<PresentMode>) -> (r: PresentMode)
    ensures
        r == chosen_present_mode(modes@),
{
    if mode_in(modes, PresentMode::Immediate) {
        PresentMode::Immediate
    } else if mode_in(modes, PresentMode::Mailbox) {
        PresentMode::Mailbox
    } else {
        PresentMode::Fifo
    }
}

/// The built image chain, as the rest of the renderer sees it.
#[derive(Clone, Copy, PartialEq, Eq, Structural, Debug)]
pub struct SwapchainState {
    /// The extent the chain was built with.
    pub extent: Extent2D,
    /// How many images the chain holds.
    pub image_count: u32,
    /// The present mode the chain was built with.
    pub present_mode: PresentMode,
    /// One framebuffer is kept per image.
    pub framebuffer_count: u32,
    /// How many times the chain has been (re)built; each rebuild makes the
    /// pipelines stale (see [`crate::pipeline`]).
    pub generation: u64,
}

impl SwapchainState {
    /// Every image of the chain has its framebuffer.
    pub open spec fn wf(&self) -> bool {
        self.framebuffer_count == self.image_count
    }
}

/// What a presentation or acquire call reported.
#[derive(Clone, Copy, PartialEq, Eq, Structural, Debug)]
pub enum PresentOutcome {
    /// The frame was presented and the chain still fits the surface.
    Success,
    /// The frame was presented but the chain no longer fits well.
    Suboptimal,
    /// The chain no longer fits the surface at all.
    OutOfDate,
}

/// Whether the swapchain still matches the surface.
#[derive(Clone, Copy, PartialEq, Eq, Structural, Debug)]
pub enum SwapchainStatus {
    Valid,
    Stale,
}

/// The swapchain, its validity, and the extent to fall back on when the
/// surface does not pin one (kept at the last resize notification).
#[derive(Clone, Copy, PartialEq, Eq, Structural, Debug)]
pub struct SwapchainManager {
    pub status: SwapchainStatus,
    pub state: SwapchainState,
    pub fallback_extent: Extent2D,
}

impl SwapchainManager {
    /// Builds the first chain from the surface's capabilities and offered
    /// present modes, with `fallback` standing in for window size.
    pub fn create(caps: &SurfaceCaps, modes: &Vec<PresentMode>, fallback: Extent2D) -> (r:
        SwapchainManager)
        ensures
            r.status == SwapchainStatus::Valid,
            r.state.wf(),
            r.state.extent == chosen_extent(*caps, fallback),
            r.state.image_count as int == chosen_image_count(*caps),
            r.state.present_mode == chosen_present_mode(modes@),
            r.state.generation == 0,
            r.fallback_extent == fallback,
    {
        let count = clamp_image_count(caps);
        SwapchainManager {
            status: SwapchainStatus::Valid,
            state: SwapchainState {
                extent: pick_extent(caps, fallback),
                image_count: count,
                present_mode: pick_present_mode(modes),
                framebuffer_count: count,
                generation: 0,
            },
            fallback_extent: fallback,
        }
    }

    /// Notes a resize notification: the chain is stale and the new size
    /// becomes the fallback extent for the next rebuild. Nothing is rebuilt
    /// yet; that happens before the next frame draws.
    pub fn note_resize(&mut self, new_extent: Extent2D)
        ensures
            final(self).status == SwapchainStatus::Stale,
            final(self).fallback_extent == new_extent,
            final(self).state == old(self).state,
    {
        self.status = SwapchainStatus::Stale;
        self.fallback_extent = new_extent;
    }

    /// Notes what a presentation or acquire call reported: a suboptimal or
    /// out-of-date result makes the chain stale; success changes nothing.
    pub fn note_present_outcome(&mut self, outcome: PresentOutcome)
        ensures
            final(self).state == old(self).state,
            final(self).fallback_extent == old(self).fallback_extent,
            final(self).status == if outcome == PresentOutcome::Success {
                old(self).status
            } else {
                SwapchainStatus::Stale
            },
    {
        match outcome {
            PresentOutcome::Success => {},
            PresentOutcome::Suboptimal => {
                self.status = SwapchainStatus::Stale;
            },
            PresentOutcome::OutOfDate => {
                self.status = SwapchainStatus::Stale;
            },
        }
    }

    /// Whether the next frame must rebuild the chain before drawing.
    pub fn needs_rebuild(&self) -> (r: bool)
        ensures
            r == (self.status == SwapchainStatus::Stale),
    {
        match self.status {
            SwapchainStatus::Stale => true,
            SwapchainStatus::Valid => false,
        }
    }

    /// Rebuilds the chain against freshly queried surface capabilities: the
    /// state is valid again, sized by the surface (or the stored fallback),
    /// and a new generation begins so the pipelines are rebuilt too.
    pub fn rebuild(&mut self, caps: &SurfaceCaps, modes: &Vec<PresentMode>)
        requires
            old(self).state.generation < u64::MAX,
        ensures
            final(self).status == SwapchainStatus::Valid,
            final(self).state.wf(),
            final(self).state.extent == chosen_extent(*caps, old(self).fallback_extent),
            final(self).state.image_count as int == chosen_image_count(*caps),
            final(self).state.present_mode == chosen_present_mode(modes@),
            final(self).state.generation == old(self).state.generation + 1,
            final(self).fallback_extent == old(self).fallback_extent,
    {
        let count = clamp_image_count(caps);
        let generation = self.state.generation + 1;
        self.state = SwapchainState {
            extent: pick_extent(caps, self.fallback_extent),
            image_count: count,
            present_mode: pick_present_mode(modes),
            framebuffer_count: count,
            generation,
        };
        self.status = SwapchainStatus::Valid;
    }
}

/// After a resize to `new_extent`, rebuilding against a surface that does
/// not pin the extent yields a chain of exactly the resized extent.
pub proof fn lemma_resize_then_rebuild_extent(caps: SurfaceCaps, new_extent: Extent2D)
    requires
        caps.current_extent is None,
    ensures
        chosen_extent(caps, new_extent) == new_extent,
{
}

} // verus!
