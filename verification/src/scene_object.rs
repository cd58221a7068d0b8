//! Scene objects: placement.
//!
//! A scene object composes one material (shading identity) and one mesh
//! (geometry) with a per-object placement transform.  Materials and
//! meshes are shared freely across objects — they only carry handles to
//! GPU resources — while the transform belongs to the object and is
//! rewritten by the scene graph whenever an ancestor moves.

use vstd::prelude::*;

use crate::Handle;
use crate::drawable::{DrawCmd, Drawable};
use crate::material::{LayoutHandle, LayoutKind, Material, spec_set_index};
use crate::mesh::Mesh;
use crate::transform::{identity_words, Transform};

verus! {

/// A drawable object: a material, a mesh and a placement transform.
#[derive(Clone, Debug, PartialEq, Eq)]
pub struct SceneObject {
    /// The object's placement, rewritten by its owning scene-graph node
    /// during transform propagation.
    pub transform: Transform,
    /// The object's shading identity, shared read-only.
    pub material: Material,
    /// The object's geometry, shared read-only.
    pub mesh: Mesh,
}

/// The one draw unit `object` produces for a frame whose shared view and
/// lighting descriptor sets are `view_set` and `lighting_set`: the
/// object's current transform as the world-uniform payload, the world set
/// built against the material's world layout, and an indexed or
/// non-indexed draw as the mesh requires.
pub open spec fn spec_object_draw(object: SceneObject, view_set: Handle, lighting_set: Handle) -> DrawCmd {
    DrawCmd {
        pipeline: object.material.pipeline,
        world_uniform: object.transform,
        world_layout: LayoutHandle {
            pipeline: object.material.pipeline,
            set_index: spec_set_index(LayoutKind::World) as usize,
        },
        view_set,
        lighting_set,
        material_set: object.material.material_descriptors,
        vertex_buffer: object.mesh.vertex_buffer,
        indexed: object.mesh.indices is Some,
        index_buffer: match object.mesh.indices {
            Some(ix) => Some(ix.buffer),
            None => None,
        },
        index_count: match object.mesh.indices {
            Some(ix) => ix.values.len(),
            None => 0,
        },
        vertex_count: object.mesh.vertex_count,
    }
}

impl SceneObject {
    /// A scene object is well formed when its material and mesh are.
    pub open spec fn wf(self) -> bool {
        self.material.wf() && self.mesh.wf()
    }

    /// Builds a scene object over `material` and `mesh`, placed at the
    /// identity until its owning scene-graph node first propagates a
    /// transform into it.
    pub fn new(material: Material, mesh: Mesh) -> (o: SceneObject)
        ensures
            o.transform@ == identity_words(),
            o.material == material,
            o.mesh == mesh,
    {
        SceneObject { transform: Transform::identity(), material, mesh }
    }

    /// Decides whether the object's material and mesh are well formed.
    pub fn check_wf(&self) -> (b: bool)
        ensures
            b == SceneObject::wf(*self),
    {
        self.material.check_wf() && self.mesh.check_wf()
    }

    /// The object's current placement transform.
    pub fn get_transform(&self) -> (t: Transform)
        ensures
            t == self.transform,
    {
        self.transform
    }

    /// Replaces the object's placement transform.
    pub fn set_transform(&mut self, transform: Transform)
        ensures
            *final(self) == (SceneObject { transform, ..*old(self) }),
    {
        self.transform = transform;
    }

    /// The object's material.
    pub fn get_material(&self) -> (m: &Material)
        ensures
            m == self.material,
    {
        &self.material
    }

    /// Replaces the object's material.
    pub fn set_material(&mut self, material: Material)
        ensures
            *final(self) == (SceneObject { material, ..*old(self) }),
    {
        self.material = material;
    }

    /// The object's mesh.
    pub fn get_mesh(&self) -> (m: &Mesh)
        ensures
            m == self.mesh,
    {
        &self.mesh
    }

    /// Replaces the object's mesh.
    pub fn set_mesh(&mut self, mesh: Mesh)
        ensures
            *final(self) == (SceneObject { mesh, ..*old(self) }),
    {
        self.mesh = mesh;
    }
}

impl Drawable for SceneObject {
    open spec fn wf(&self) -> bool {
        SceneObject::wf(*self)
    }

    open spec fn spec_draw(&self, view_set: Handle, lighting_set: Handle) -> Seq<DrawCmd> {
        seq![spec_object_draw(*self, view_set, lighting_set)]
    }

    /// Produces the object's single draw unit: binds, in canonical order,
    /// the frame's view set, a world set built fresh from the object's
    /// transform, the frame's lighting set and the material's own set,
    /// and draws the mesh indexed or non-indexed as it requires.
    fn draw(&self, view_set: Handle, lighting_set: Handle) -> (r: Vec<DrawCmd>)
    {
        let world_layout = self.material.get_layout(LayoutKind::World);
        let cmd = DrawCmd {
            pipeline: self.material.pipeline(),
            world_uniform: self.get_transform(),
            world_layout,
            view_set,
            lighting_set,
            material_set: self.material.material_descriptors(),
            vertex_buffer: self.mesh.vertex_buffer(),
            indexed: self.mesh.is_indexed(),
            index_buffer: if self.mesh.is_indexed() {
                Some(self.mesh.index_buffer())
            } else {
                None
            },
            index_count: match &self.mesh.indices {
                Some(ix) => ix.values.len(),
                None => 0,
            },
            vertex_count: self.mesh.vertex_count,
        };
        let mut r: Vec<DrawCmd> = Vec::new();
        r.push(cmd);
        proof {
            assert(r@ =~= self.spec_draw(view_set, lighting_set));
        }
        r
    }
}

} // verus!
