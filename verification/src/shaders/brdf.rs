//! Filling the lookup table of the specular response on the device.

use crate::draw::DrawParameters;
use crate::ibl::brdf::TARGET_RESOLUTION;
use crate::shapes::{get_quad, quad_vertex};
use crate::vertex::Vertex;
use vstd::prelude::*;

verus! {

/// Fills the lookup table.
pub struct BRDF {}

/// The single pass that fills the table: the quad drawn as a triangle strip
/// without indices, with default state and no uniforms.
pub struct LookupPass {
    pub width: u32,
    pub height: u32,
    pub vertices: Vec<Vertex<i8>>,
    pub parameters: DrawParameters,
}

impl BRDF {
    /// Plans the filling of the table: one pass into a texture of 512 by 512
    /// pixels.
    pub fn compute() -> (pass: LookupPass)
        ensures
            pass.width == TARGET_RESOLUTION.0,
            pass.height == TARGET_RESOLUTION.1,
            pass.parameters == DrawParameters::spec_default(),
            pass.vertices@.len() == 4,
            forall|i: int| 0 <= i < 4 ==> (#[trigger] pass.vertices@[i]).parts() == quad_vertex(i),
    {
        LookupPass {
            width: TARGET_RESOLUTION.0,
            height: TARGET_RESOLUTION.1,
            vertices: get_quad(),
            parameters: DrawParameters::default(),
        }
    }
}

} // verus!
