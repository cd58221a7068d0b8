//! Meshes: geometry.
//!
//! A mesh owns a vertex buffer and, optionally, an index buffer, both
//! referred to through opaque handles.  The index values themselves are
//! plain data and are kept here, so the geometric invariant — an indexed
//! mesh has at least one index and every index addresses an existing
//! vertex — is checked when the mesh is built, never when it is drawn.

use vstd::prelude::*;

use crate::Handle;

verus! {

/// The index data of an indexed mesh: the GPU-side index buffer and the
/// index values it was filled from.
#[derive(Clone, Debug, PartialEq, Eq)]
pub struct MeshIndices {
    /// The GPU-side index buffer.
    pub buffer: Handle,
    /// The index values, each addressing a vertex of the vertex buffer.
    pub values: Vec<u32>,
}

/// Why a mesh could not be built.
#[derive(Clone, Copy, Debug, PartialEq, Eq)]
pub enum MeshError {
    /// An indexed mesh was given no index values.
    EmptyIndexList,
    /// An index value addresses no vertex of the vertex buffer.
    IndexOutOfRange,
}

/// A mesh: a vertex buffer of `vertex_count` vertices and, when the mesh
/// is drawn indexed, its index data.
#[derive(Clone, Debug, PartialEq, Eq)]
pub struct Mesh {
    /// How many vertices the vertex buffer holds.
    pub vertex_count: usize,
    /// The GPU-side vertex buffer.
    pub vertex_buffer: Handle,
    /// The index data, present exactly when the mesh is drawn indexed.
    pub indices: Option<MeshIndices>,
}

impl Mesh {
    /// A mesh is well formed when, if it is indexed, it has at least one
    /// index and every index addresses an existing vertex.
    pub open spec fn wf(self) -> bool {
        match self.indices {
            Some(ix) => ix.values.len() > 0 && forall|i: int|
                0 <= i < ix.values.len() ==> ix.values[i] < self.vertex_count,
            None => true,
        }
    }

    /// Builds a non-indexed mesh over a vertex buffer of `vertex_count`
    /// vertices.
    pub fn new(vertex_count: usize, vertex_buffer: Handle) -> (m: Mesh)
        ensures
            m == (Mesh { vertex_count, vertex_buffer, indices: None::<MeshIndices> }),
            m.wf(),
    {
        Mesh { vertex_count, vertex_buffer, indices: None }
    }

    /// Builds an indexed mesh over a vertex buffer of `vertex_count`
    /// vertices, drawn through `values` uploaded into `index_buffer`.
    ///
    /// Fails exactly when `values` is empty or some value addresses no
    /// vertex; succeeding means the mesh invariant holds.
    pub fn new_indexed(
        vertex_count: usize,
        vertex_buffer: Handle,
        index_buffer: Handle,
        values: Vec<u32>,
    ) -> (r: Result<Mesh, MeshError>)
        ensures
            r matches Ok(m) ==> {
                &&& m == (Mesh {
                    vertex_count,
                    vertex_buffer,
                    indices: Some(MeshIndices { buffer: index_buffer, values }),
                })
                &&& m.wf()
            },
            r is Ok <==> values.len() > 0 && (forall|i: int|
                0 <= i < values.len() ==> values[i] < vertex_count),
            r == Err::<Mesh, MeshError>(MeshError::EmptyIndexList) <==> values.len() == 0,
            r == Err::<Mesh, MeshError>(MeshError::IndexOutOfRange) <==> values.len() > 0
                && exists|i: int| 0 <= i < values.len() && #[trigger] values[i] >= vertex_count,
    {
        if values.len() == 0 {
            return Err(MeshError::EmptyIndexList);
        }
        let mut i: usize = 0;
        while i < values.len()
            invariant
                0 <= i <= values.len(),
                forall|j: int| 0 <= j < i ==> values[j] < vertex_count,
            decreases values.len() - i,
        {
            if values[i] as usize >= vertex_count {
                return Err(MeshError::IndexOutOfRange);
            }
            i += 1;
        }
        Ok(Mesh {
            vertex_count,
            vertex_buffer,
            indices: Some(MeshIndices { buffer: index_buffer, values }),
        })
    }

    /// Decides whether the mesh invariant holds: a non-indexed mesh
    /// always does; an indexed mesh needs at least one index and every
    /// index in range of the vertex count.
    pub fn check_wf(&self) -> (b: bool)
        ensures
            b == self.wf(),
    {
        match &self.indices {
            None => true,
            Some(ix) => {
                if ix.values.len() == 0 {
                    return false;
                }
                let mut i: usize = 0;
                while i < ix.values.len()
                    invariant
                        i <= ix.values.len(),
                        self.indices matches Some(jx) && jx == ix,
                        forall|j: int| 0 <= j < i ==> ix.values[j] < self.vertex_count,
                    decreases ix.values.len() - i,
                {
                    if ix.values[i] as usize >= self.vertex_count {
                        return false;
                    }
                    i += 1;
                }
                true
            },
        }
    }

    /// Whether drawing this mesh requires an indexed draw.
    pub fn is_indexed(&self) -> (b: bool)
        ensures
            b == (self.indices is Some),
    {
        self.indices.is_some()
    }

    /// The GPU-side vertex buffer.
    pub fn vertex_buffer(&self) -> (b: Handle)
        ensures
            b == self.vertex_buffer,
    {
        self.vertex_buffer
    }

    /// The GPU-side index buffer; only an indexed mesh has one.
    pub fn index_buffer(&self) -> (b: Handle)
        requires
            self.indices is Some,
        ensures
            b == self.indices->Some_0.buffer,
    {
        match &self.indices {
            Some(ix) => ix.buffer,
            None => unreached(),
        }
    }
}

/// The index values of the unit cube: six faces of four vertices each,
/// two triangles per face.
pub open spec fn cube_index_values() -> Seq<u32> {
    seq![
        0u32, 1, 2, 2, 1, 3,
        4, 5, 6, 6, 5, 7,
        8, 9, 10, 10, 9, 11,
        12, 13, 14, 14, 13, 15,
        16, 17, 18, 18, 17, 19,
        20, 21, 22, 22, 21, 23,
    ]
}

/// How many vertices the cube's vertex buffer holds: four per face.
pub const CUBE_VERTEX_COUNT: usize = 24;

impl Mesh {
    /// Builds the cube mesh: 24 vertices, drawn indexed through the 36
    /// cube indices uploaded into `index_buffer`.
    pub fn cube(vertex_buffer: Handle, index_buffer: Handle) -> (m: Mesh)
        ensures
            m.vertex_count == CUBE_VERTEX_COUNT,
            m.vertex_buffer == vertex_buffer,
            m.indices matches Some(ix) && ix.buffer == index_buffer && ix.values@
                == cube_index_values(),
            m.wf(),
    {
        let values: Vec<u32> = vec![
            0, 1, 2, 2, 1, 3,
            4, 5, 6, 6, 5, 7,
            8, 9, 10, 10, 9, 11,
            12, 13, 14, 14, 13, 15,
            16, 17, 18, 18, 17, 19,
            20, 21, 22, 22, 21, 23,
        ];
        proof {
            assert(values@ =~= cube_index_values());
        }
        let m = Mesh {
            vertex_count: CUBE_VERTEX_COUNT,
            vertex_buffer,
            indices: Some(MeshIndices { buffer: index_buffer, values }),
        };
        proof {
            assert forall|i: int| 0 <= i < m.indices->Some_0.values.len() implies m.indices->Some_0.values[i]
                < m.vertex_count by {
                assert(cube_index_values()[i] < 24);
            }
        }
        m
    }
}

} // verus!
