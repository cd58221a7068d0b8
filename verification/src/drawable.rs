//! Drawable units and the drawable capability.
//!
//! A draw command is one immutable, fully described unit of GPU work,
//! produced fresh each frame: which pipeline to bind, which four
//! descriptor sets in which canonical order, which vertex (and index)
//! buffers, and the world-transform payload for the per-object uniform.
//! The surrounding application records each command as a secondary
//! command buffer inside the frame's render pass.

use vstd::prelude::*;

use crate::Handle;
use crate::material::LayoutHandle;
use crate::transform::Transform;

verus! {

/// One recorded unit of GPU draw work.
///
/// The four descriptor sets are bound in the canonical order: the view
/// set, the world set (built fresh from `world_uniform` against
/// `world_layout`), the lighting set, the material set.
#[derive(Clone, Copy, Debug, PartialEq, Eq)]
pub struct DrawCmd {
    /// The graphics pipeline to bind.
    pub pipeline: Handle,
    /// The world-transform uniform payload, copied into a fresh
    /// sub-allocation of the per-object uniform pool.
    pub world_uniform: Transform,
    /// The layout the world-transform descriptor set is built against.
    pub world_layout: LayoutHandle,
    /// The frame-global camera/view descriptor set.
    pub view_set: Handle,
    /// The frame-global lighting descriptor set.
    pub lighting_set: Handle,
    /// The material's shading-parameter descriptor set.
    pub material_set: Handle,
    /// The vertex buffer to bind.
    pub vertex_buffer: Handle,
    /// Whether the draw is indexed.
    pub indexed: bool,
    /// The index buffer, present exactly when the draw is indexed.
    pub index_buffer: Option<Handle>,
    /// How many indices are drawn (an indexed draw) or zero.
    pub index_count: usize,
    /// How many vertices the vertex buffer holds.
    pub vertex_count: usize,
}

/// The capability of producing recorded draw units for one frame, given
/// the frame's shared view and lighting descriptor sets.
pub trait Drawable {
    /// Whether the drawable's materials and meshes are well formed.
    spec fn wf(&self) -> bool;

    /// The draw units this drawable produces, in recording order.
    spec fn spec_draw(&self, view_set: Handle, lighting_set: Handle) -> Seq<DrawCmd>;

    /// Produces this drawable's draw units for the current frame.
    fn draw(&self, view_set: Handle, lighting_set: Handle) -> (r: Vec<DrawCmd>)
        requires
            self.wf(),
        ensures
            r@ == self.spec_draw(view_set, lighting_set),
    ;
}

} // verus!
