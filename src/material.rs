use vstd::prelude::*;

verus! {

/// Construction parameters of a basic mesh material.
#[derive(Debug, Clone, Copy, PartialEq, Eq, Structural)]
pub struct MeshBasicMaterialParameters {
    /// Colour as `0xRRGGBB`.
    pub color: u32,
}

impl MeshBasicMaterialParameters {
    /// Parameters with the given colour.
    pub fn new(color: u32) -> (r: MeshBasicMaterialParameters)
        ensures
            r.color == color,
    {
        MeshBasicMaterialParameters { color }
    }
}

} // verus!
