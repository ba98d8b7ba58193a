//! Mesh data: vertex components and the indices that assemble them.

use vstd::prelude::*;

verus! {

/// How many components make up one vertex.
pub const COMPONENTS_PER_VERTEX: usize = 3;

/// The mesh invariant: every index names a whole vertex of `vertices`, and
/// the indices can be counted by a draw call.
pub open spec fn valid_mesh(vertices: Seq<u32>, indices: Seq<u32>) -> bool {
    &&& indices.len() <= i32::MAX
    &&& forall|i: int|
        0 <= i < indices.len() ==> (#[trigger] indices[i]) < vertices.len() / (
        COMPONENTS_PER_VERTEX as nat)
}

/// Whether `vertices` and `indices` meet the mesh invariant.
pub fn check_mesh(vertices: &[u32], indices: &[u32]) -> (valid: bool)
    ensures
        valid == valid_mesh(vertices@, indices@),
{
    if indices.len() > 0x7fff_ffff {
        return false;
    }
    let count = vertices.len() / COMPONENTS_PER_VERTEX;
    let mut i: usize = 0;
    while i < indices.len()
        invariant
            i <= indices@.len(),
            count == vertices@.len() / (COMPONENTS_PER_VERTEX as nat),
            forall|j: int| 0 <= j < i ==> (#[trigger] indices@[j]) < count,
        decreases indices@.len() - i,
    {
        if indices[i] as usize >= count {
            return false;
        }
        i += 1;
    }
    true
}

/// Vertex components, as IEEE-754 bit patterns, and indices into them.
#[derive(Debug, PartialEq, Eq)]
pub struct Mesh {
    indices: Vec<u32>,
    vertices: Vec<u32>,
}

impl Mesh {
    /// The vertex components.
    pub closed spec fn spec_vertices(&self) -> Seq<u32> {
        self.vertices@
    }

    /// The indices.
    pub closed spec fn spec_indices(&self) -> Seq<u32> {
        self.indices@
    }

    /// A mesh of the given data. The data is taken as it is: see
    /// [`Mesh::is_valid`].
    pub fn new(vertices: Vec<u32>, indices: Vec<u32>) -> (mesh: Mesh)
        ensures
            mesh.spec_vertices() == vertices@,
            mesh.spec_indices() == indices@,
    {
        Mesh { vertices, indices }
    }

    /// The vertex components.
    pub fn vertices(&self) -> (vertices: &Vec<u32>)
        ensures
            vertices@ == self.spec_vertices(),
    {
        &self.vertices
    }

    /// The indices.
    pub fn indices(&self) -> (indices: &Vec<u32>)
        ensures
            indices@ == self.spec_indices(),
    {
        &self.indices
    }

    /// Whether the mesh meets the mesh invariant.
    pub fn is_valid(&self) -> (valid: bool)
        ensures
            valid == valid_mesh(self.spec_vertices(), self.spec_indices()),
    {
        check_mesh(self.vertices.as_slice(), self.indices.as_slice())
    }
}

} // verus!
