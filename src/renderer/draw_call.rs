use vstd::prelude::*;

use crate::material::Material;
use crate::renderer::model::Model;

verus! {

/// One piece of geometry drawn with one material. A frame draws its draw
/// calls in the order given.
#[derive(Clone, Copy, Debug, PartialEq, Eq, Structural)]
pub struct DrawCall {
    pub model: Model,
    pub material: Material,
}

impl DrawCall {
    pub fn new(model: Model, material: Material) -> (r: DrawCall)
        ensures
            r.model == model,
            r.material == material,
    {
        DrawCall { model, material }
    }
}

} // verus!
