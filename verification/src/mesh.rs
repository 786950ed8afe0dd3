use vstd::prelude::*;

verus! {

/// Bookkeeping for a mesh stored as one vertex buffer and one index buffer.
///
/// Both buffers grow conservatively: replacing the mesh data reallocates a
/// buffer only when the new count exceeds its capacity, and otherwise writes
/// in place. Counts are in elements (vertices, indices); the caller owns the
/// actual buffers and reallocates or rewrites them as the results here
/// direct.
#[derive(Debug)]
pub struct Mesh {
    /// Number of vertices the vertex buffer can hold.
    pub vertex_capacity: u64,
    /// Number of indices the index buffer can hold.
    pub index_capacity: u64,
    /// Number of vertices currently stored.
    pub vertex_count: u64,
    /// Number of indices currently stored.
    pub index_count: u64,
}

impl Mesh {
    /// The stored elements always fit their buffers.
    pub open spec fn wf(&self) -> bool {
        self.vertex_count <= self.vertex_capacity && self.index_count <= self.index_capacity
    }

    /// Creates the books for a mesh holding `vertices` vertices and `indices`
    /// indices, each buffer sized exactly to its initial contents.
    pub fn new(vertices: u64, indices: u64) -> (mesh: Self)
        ensures
            mesh.wf(),
            mesh.vertex_count == vertices,
            mesh.vertex_capacity == vertices,
            mesh.index_count == indices,
            mesh.index_capacity == indices,
    {
        Mesh {
            vertex_capacity: vertices,
            index_capacity: indices,
            vertex_count: vertices,
            index_count: indices,
        }
    }

    /// Replaces the vertex data with `count` vertices. Returns whether the
    /// vertex buffer must be reallocated: only a count beyond the current
    /// capacity grows the buffer, to exactly the new count.
    pub fn set_vertices(&mut self, count: u64) -> (grew: bool)
        requires
            old(self).wf(),
        ensures
            final(self).wf(),
            final(self).vertex_count == count,
            grew == (count > old(self).vertex_capacity),
            final(self).vertex_capacity == if grew {
                count
            } else {
                old(self).vertex_capacity
            },
            final(self).index_count == old(self).index_count,
            final(self).index_capacity == old(self).index_capacity,
    {
        self.vertex_count = count;
        if count > self.vertex_capacity {
            self.vertex_capacity = count;
            true
        } else {
            false
        }
    }

    /// Replaces the index data with `count` indices. Returns whether the
    /// index buffer must be reallocated: only a count beyond the current
    /// capacity grows the buffer, to exactly the new count.
    pub fn set_indices(&mut self, count: u64) -> (grew: bool)
        requires
            old(self).wf(),
        ensures
            final(self).wf(),
            final(self).index_count == count,
            grew == (count > old(self).index_capacity),
            final(self).index_capacity == if grew {
                count
            } else {
                old(self).index_capacity
            },
            final(self).vertex_count == old(self).vertex_count,
            final(self).vertex_capacity == old(self).vertex_capacity,
    {
        self.index_count = count;
        if count > self.index_capacity {
            self.index_capacity = count;
            true
        } else {
            false
        }
    }
}

} // verus!
