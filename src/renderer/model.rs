use vstd::prelude::*;

verus! {

/// Geometry to draw: a vertex buffer, named by the handle under which the
/// host keeps it, and the number of vertices it holds.
#[derive(Clone, Copy, Debug, PartialEq, Eq, Structural)]
pub struct Model {
    pub buffer: u64,
    pub vertex_count: u32,
}

impl Model {
    /// A model over the vertex buffer `buffer` of `vertex_count` vertices.
    pub fn load(buffer: u64, vertex_count: u32) -> (r: Model)
        ensures
            r.buffer == buffer,
            r.vertex_count == vertex_count,
    {
        Model { buffer, vertex_count }
    }
}

} // verus!
