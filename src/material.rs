use vstd::prelude::*;

verus! {

/// What a draw call renders with: a graphics pipeline, named by the handle
/// under which the host keeps it.
#[derive(Clone, Copy, Debug, PartialEq, Eq, Structural)]
pub struct Material {
    pub pipeline: u64,
}

impl Material {
    /// A material drawn with the pipeline `pipeline`.
    pub fn new(pipeline: u64) -> (r: Material)
        ensures
            r.pipeline == pipeline,
    {
        Material { pipeline }
    }

    /// The pipeline this material draws with.
    pub fn pipeline(&self) -> (r: u64)
        ensures
            r == self.pipeline,
    {
        self.pipeline
    }
}

} // verus!
