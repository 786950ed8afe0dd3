use vstd::prelude::*;

verus! {

/// Simplified vertex attribute: its shader-side shape and its byte offset
/// within the vertex.
#[derive(Clone, Copy, PartialEq, Eq, Structural, Debug)]
pub enum VertexAttribute {
    /// A single 32-bit float.
    Float { offset: u64 },
    /// Two 32-bit floats.
    Vec2 { offset: u64 },
    /// Three 32-bit floats.
    Vec3 { offset: u64 },
    /// Four 32-bit floats.
    Vec4 { offset: u64 },
}

impl VertexAttribute {
    /// The offset of the attribute in the vertex.
    pub open spec fn spec_offset(&self) -> u64 {
        match self {
            VertexAttribute::Float { offset } => *offset,
            VertexAttribute::Vec2 { offset } => *offset,
            VertexAttribute::Vec3 { offset } => *offset,
            VertexAttribute::Vec4 { offset } => *offset,
        }
    }

    /// Returns the offset of the attribute in the vertex.
    pub fn offset(&self) -> (offset: u64)
        ensures
            offset == self.spec_offset(),
    {
        match self {
            VertexAttribute::Float { offset } => *offset,
            VertexAttribute::Vec2 { offset } => *offset,
            VertexAttribute::Vec3 { offset } => *offset,
            VertexAttribute::Vec4 { offset } => *offset,
        }
    }
}

} // verus!
