//! Materials: shading identity.
//!
//! A material owns a graphics pipeline and a ready-made descriptor set for
//! its own shading parameters, both referred to through opaque handles.
//! The pipeline declares one descriptor-set layout per binding kind, at a
//! canonical set index that is fixed here once and for all; a pipeline
//! that declares too few set layouts is rejected when the material is
//! built, never when a draw is recorded.

use vstd::prelude::*;

use crate::Handle;

verus! {

/// The four binding-set kinds a material's pipeline declares, one
/// descriptor-set layout each.
#[derive(Clone, Copy, Debug, PartialEq, Eq)]
pub enum LayoutKind {
    /// Frame-global camera/view bindings.
    View,
    /// The per-object world-transform binding.
    World,
    /// Frame-global lighting bindings.
    Lighting,
    /// The material's own shading-parameter bindings.
    MaterialParams,
}

/// The canonical descriptor-set index of each binding kind.  Every
/// pipeline a material is built over must declare its set layouts in this
/// order; the draw recording binds the four sets at exactly these indices.
pub open spec fn spec_set_index(kind: LayoutKind) -> int {
    match kind {
        LayoutKind::View => 0,
        LayoutKind::World => 1,
        LayoutKind::Lighting => 2,
        LayoutKind::MaterialParams => 3,
    }
}

/// One descriptor-set layout of a pipeline: the pipeline and the set
/// index the layout was declared at.
#[derive(Clone, Copy, Debug, PartialEq, Eq)]
pub struct LayoutHandle {
    pub pipeline: Handle,
    pub set_index: usize,
}

/// Why a material could not be built.
#[derive(Clone, Copy, Debug, PartialEq, Eq)]
pub enum MaterialError {
    /// The pipeline declares fewer descriptor-set layouts than the four
    /// binding kinds need.
    MissingSetLayout,
}

/// A material: an immutable graphics pipeline plus the descriptor set
/// that binds the material's own shading parameters.
#[derive(Clone, Copy, Debug, PartialEq, Eq)]
pub struct Material {
    /// The graphics pipeline, immutable after construction.
    pub pipeline: Handle,
    /// How many descriptor-set layouts the pipeline declares.
    pub set_count: usize,
    /// The ready-made shading-parameter descriptor set, built once and
    /// reused every frame.
    pub material_descriptors: Handle,
}

impl Material {
    /// A material is well formed when its pipeline declares a set layout
    /// for every binding kind.
    pub open spec fn wf(self) -> bool {
        self.set_count >= 4
    }

    /// Builds a material over `pipeline`, which declares `set_count`
    /// descriptor-set layouts, with `material_descriptors` binding the
    /// material's shading parameters.
    ///
    /// Fails exactly when the pipeline declares fewer set layouts than
    /// the four binding kinds need.
    pub fn new(pipeline: Handle, set_count: usize, material_descriptors: Handle) -> (r: Result<
        Material,
        MaterialError,
    >)
        ensures
            set_count >= 4 ==> r == Ok::<Material, MaterialError>(
                Material { pipeline, set_count, material_descriptors },
            ),
            set_count < 4 ==> r == Err::<Material, MaterialError>(MaterialError::MissingSetLayout),
            r matches Ok(m) ==> m.wf(),
    {
        if set_count < 4 {
            Err(MaterialError::MissingSetLayout)
        } else {
            Ok(Material { pipeline, set_count, material_descriptors })
        }
    }

    /// Decides whether the material is well formed: whether its pipeline
    /// declares a set layout for every binding kind.
    pub fn check_wf(&self) -> (b: bool)
        ensures
            b == self.wf(),
    {
        self.set_count >= 4
    }

    /// The material's pipeline.
    pub fn pipeline(&self) -> (p: Handle)
        ensures
            p == self.pipeline,
    {
        self.pipeline
    }

    /// The material's ready-made shading-parameter descriptor set.
    pub fn material_descriptors(&self) -> (d: Handle)
        ensures
            d == self.material_descriptors,
    {
        self.material_descriptors
    }

    /// The pipeline's descriptor-set layout for `kind`, at that kind's
    /// canonical set index.
    pub fn get_layout(&self, kind: LayoutKind) -> (l: LayoutHandle)
        requires
            self.wf(),
        ensures
            l.pipeline == self.pipeline,
            l.set_index == spec_set_index(kind),
            l.set_index < self.set_count,
    {
        let set_index: usize = match kind {
            LayoutKind::View => 0,
            LayoutKind::World => 1,
            LayoutKind::Lighting => 2,
            LayoutKind::MaterialParams => 3,
        };
        LayoutHandle { pipeline: self.pipeline, set_index }
    }

    /// The layout of the frame-global camera/view binding set.
    pub fn get_view_layout(&self) -> (l: LayoutHandle)
        requires
            self.wf(),
        ensures
            l == (LayoutHandle { pipeline: self.pipeline, set_index: spec_set_index(LayoutKind::View) as usize }),
    {
        self.get_layout(LayoutKind::View)
    }

    /// The layout of the per-object world-transform binding set.
    pub fn get_world_layout(&self) -> (l: LayoutHandle)
        requires
            self.wf(),
        ensures
            l == (LayoutHandle { pipeline: self.pipeline, set_index: spec_set_index(LayoutKind::World) as usize }),
    {
        self.get_layout(LayoutKind::World)
    }

    /// The layout of the frame-global lighting binding set.
    pub fn get_lighting_layout(&self) -> (l: LayoutHandle)
        requires
            self.wf(),
        ensures
            l == (LayoutHandle { pipeline: self.pipeline, set_index: spec_set_index(LayoutKind::Lighting) as usize }),
    {
        self.get_layout(LayoutKind::Lighting)
    }
}

} // verus!
