//! Core of a real-time rendering frame orchestrator: a scene graph with
//! verified world-transform propagation and draw-unit collection, and the
//! renderer's swapchain/frame state machine.
//!
//! GPU resources (pipelines, buffers, descriptor sets, swapchain images)
//! are referred to through opaque integer handles; the device work itself
//! is performed by the surrounding application.

use vstd::prelude::*;

pub mod camera;
pub mod drawable;
pub mod material;
pub mod mesh;
pub mod renderer;
pub mod scene_graph;
pub mod scene_object;
pub mod transform;

verus! {

/// An opaque handle to a GPU-side resource owned by the surrounding
/// application (a pipeline, a buffer, a descriptor set, ...).
pub type Handle = u64;

} // verus!
