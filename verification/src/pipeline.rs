//! The graphics pipelines and their vertex layouts.
//!
//! One pipeline exists per vertex layout in use: the terrain pipeline draws
//! the voxel mesh (position, normal, colour), the object pipeline draws the
//! loaded model (position, normal, texture coordinate). Both carry one push
//! constant block of two 4-by-4 matrices for the vertex stage. Whenever the
//! swapchain reaches a new valid state, every pipeline is rebuilt against
//! the new render pass and extent before the next draw.

use vstd::prelude::*;

use crate::swapchain::Extent2D;
use crate::swapchain::SwapchainState;

verus! {

/// The push constant block: a projection-view-model matrix and a model
/// matrix, 16 four-byte floats each.
pub const PUSH_CONSTANT_BYTES: u32 = 128;

/// Which pipeline a draw goes through.
#[derive(Clone, Copy, PartialEq, Eq, Structural, Debug)]
pub enum PipelineKind {
    Terrain,
    Object,
}

/// One vertex attribute: its byte offset in the vertex and its byte size.
#[derive(Clone, Copy, PartialEq, Eq, Structural, Debug)]
pub struct VertexAttribute {
    pub offset: u32,
    pub size: u32,
}

/// A vertex layout: its attributes in order and the stride between
/// consecutive vertices.
#[derive(Clone, Debug)]
pub struct VertexLayout {
    pub attributes: Vec<VertexAttribute>,
    pub stride: u32,
}

impl VertexLayout {
    /// The attributes pack the vertex without gaps: the first starts at
    /// offset zero, each next one where the previous ended, and the stride
    /// is the packed size.
    pub open spec fn wf(&self) -> bool {
        &&& self.attributes@.len() > 0
        &&& self.attributes@[0].offset == 0
        &&& forall|i: int|
            0 < i < self.attributes@.len() ==> (#[trigger] self.attributes@[i]).offset
                == self.attributes@[i - 1].offset + self.attributes@[i - 1].size
        &&& self.stride == self.attributes@.last().offset + self.attributes@.last().size
    }
}

/// The terrain vertex layout: position, normal and colour, three four-byte
/// floats each.
pub fn terrain_vertex_layout() -> (r: VertexLayout)
    ensures
        r.wf(),
        r.attributes@.len() == 3,
        r.attributes@[0] == (VertexAttribute { offset: 0, size: 12 }),
        r.attributes@[1] == (VertexAttribute { offset: 12, size: 12 }),
        r.attributes@[2] == (VertexAttribute { offset: 24, size: 12 }),
        r.stride == 36,
{
    let mut attributes: Vec<VertexAttribute> = Vec::new();
    attributes.push(VertexAttribute { offset: 0, size: 12 });
    attributes.push(VertexAttribute { offset: 12, size: 12 });
    attributes.push(VertexAttribute { offset: 24, size: 12 });
    VertexLayout { attributes, stride: 36 }
}

/// The object vertex layout: position and normal of three four-byte floats,
/// then a two-float texture coordinate.
pub fn object_vertex_layout() -> (r: VertexLayout)
    ensures
        r.wf(),
        r.attributes@.len() == 3,
        r.attributes@[0] == (VertexAttribute { offset: 0, size: 12 }),
        r.attributes@[1] == (VertexAttribute { offset: 12, size: 12 }),
        r.attributes@[2] == (VertexAttribute { offset: 24, size: 8 }),
        r.stride == 32,
{
    let mut attributes: Vec<VertexAttribute> = Vec::new();
    attributes.push(VertexAttribute { offset: 0, size: 12 });
    attributes.push(VertexAttribute { offset: 12, size: 12 });
    attributes.push(VertexAttribute { offset: 24, size: 8 });
    VertexLayout { attributes, stride: 32 }
}

/// The push constant range every pipeline declares: offset and byte size of
/// the block, visible to the vertex stage only.
pub fn push_constant_range() -> (r: (u32, u32))
    ensures
        r.0 == 0,
        r.1 == PUSH_CONSTANT_BYTES,
{
    (0, PUSH_CONSTANT_BYTES)
}

/// The compiled pipelines, remembered with the swapchain state they were
/// built against.
#[derive(Clone, Copy, PartialEq, Eq, Structural, Debug)]
pub struct PipelineSet {
    /// The swapchain generation the pipelines were built for.
    pub generation: u64,
    /// The viewport extent baked into the pipelines.
    pub viewport: Extent2D,
    /// Whether the object pipeline exists beside the terrain pipeline.
    pub with_object: bool,
}

impl PipelineSet {
    /// The pipelines fit this swapchain state: built for its generation and
    /// its extent.
    pub open spec fn fits(&self, s: SwapchainState) -> bool {
        self.generation == s.generation && self.viewport == s.extent
    }

    /// Compiles the pipelines against the given swapchain state; the object
    /// pipeline is built only when a loaded model needs it.
    pub fn build(swapchain: &SwapchainState, with_object: bool) -> (r: PipelineSet)
        ensures
            r.fits(*swapchain),
            r.with_object == with_object,
    {
        PipelineSet {
            generation: swapchain.generation,
            viewport: swapchain.extent,
            with_object,
        }
    }

    /// Whether the pipelines must be rebuilt before drawing into this
    /// swapchain state.
    pub fn needs_rebuild(&self, swapchain: &SwapchainState) -> (r: bool)
        ensures
            r == !self.fits(*swapchain),
    {
        self.generation != swapchain.generation || self.viewport.width
            != swapchain.extent.width || self.viewport.height != swapchain.extent.height
    }

    /// Rebuilds every pipeline against the new swapchain state, keeping the
    /// set of pipelines itself.
    pub fn rebuild(&mut self, swapchain: &SwapchainState)
        ensures
            final(self).fits(*swapchain),
            final(self).with_object == old(self).with_object,
    {
        self.generation = swapchain.generation;
        self.viewport = swapchain.extent;
    }
}

} // verus!
