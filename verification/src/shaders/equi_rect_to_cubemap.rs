//! Turning a panorama into a cubemap on the device.

use crate::cube_face::{face_at, CameraBasis, FACE_COUNT};
use crate::draw::{BackfaceCullingMode, Blend, DepthTest, DrawParameters};
use crate::shaders::{camera_directions, is_layer_pass_list, layer_passes, LayerPass};
use vstd::prelude::*;

verus! {

/// Samples a panorama into the six faces of a cubemap.
pub struct EquiRectCubemap {}

/// State of every pass: depth is tested with less-than and written.
pub open spec fn spec_face_parameters() -> DrawParameters {
    DrawParameters {
        depth_test: DepthTest::IfLess,
        depth_write: true,
        backface_culling: BackfaceCullingMode::CullingDisabled,
        blend: Blend::AlwaysReplace,
    }
}

/// State of every pass.
pub fn face_parameters() -> (p: DrawParameters)
    ensures
        p == spec_face_parameters(),
{
    DrawParameters {
        depth_test: DepthTest::IfLess,
        depth_write: true,
        backface_culling: BackfaceCullingMode::CullingDisabled,
        blend: Blend::AlwaysReplace,
    }
}

impl EquiRectCubemap {
    /// Plans the rendering of a cubemap of the given resolution from a
    /// panorama: six passes in face order, each into its own layer.
    pub fn compute(resolution: u32) -> (passes: Vec<LayerPass>)
        ensures
            is_layer_pass_list(passes@, resolution, spec_face_parameters()),
    {
        layer_passes(resolution, face_parameters())
    }

    /// The camera of each face, in face order.
    pub fn directions() -> (directions: Vec<CameraBasis>)
        ensures
            directions@.len() == FACE_COUNT,
            forall|i: int|
                0 <= i < FACE_COUNT ==> #[trigger] directions@[i] == face_at(i).spec_layer_basis(),
    {
        camera_directions()
    }
}

} // verus!
