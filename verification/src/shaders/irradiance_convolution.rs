//! Convolving an environment into its irradiance map on the device.

use crate::cube_face::{face_at, CameraBasis, FACE_COUNT};
use crate::ibl::irradiance_conversion::IRRADIANCE_RESOLUTION;
use crate::shaders::equi_rect_to_cubemap::{face_parameters, spec_face_parameters};
use crate::shaders::{is_layer_pass_list, layer_passes, LayerPass};
use vstd::prelude::*;

verus! {

/// Convolves an environment into its irradiance map.
pub struct IrradianceConvolution {}

impl IrradianceConvolution {
    /// Plans the rendering of the irradiance map: six passes in face order
    /// into a cubemap of 32 by 32 pixels.
    pub fn calculate() -> (passes: Vec<LayerPass>)
        ensures
            is_layer_pass_list(passes@, IRRADIANCE_RESOLUTION, spec_face_parameters()),
    {
        layer_passes(IRRADIANCE_RESOLUTION, face_parameters())
    }

    /// The camera of each face, in face order.
    pub fn camera_directions() -> (directions: Vec<CameraBasis>)
        ensures
            directions@.len() == FACE_COUNT,
            forall|i: int|
                0 <= i < FACE_COUNT ==> #[trigger] directions@[i] == face_at(i).spec_layer_basis(),
    {
        crate::shaders::camera_directions()
    }
}

} // verus!
