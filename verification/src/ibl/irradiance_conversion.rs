//! The irradiance map: the environment blurred over the hemisphere, for
//! diffuse light.

use crate::cubemap_render::{face_passes, is_face_pass_list, FacePass};
use vstd::prelude::*;

verus! {

/// Side of the faces of the irradiance map. Irradiance changes slowly with
/// direction, so a small map is enough.
pub const IRRADIANCE_RESOLUTION: u32 = 32;

/// Bakes the irradiance map.
pub struct IrradianceConverter {}

impl IrradianceConverter {
    /// The size every irradiance map is rendered at, whatever the camera
    /// was set to.
    pub fn output_size() -> (size: (u32, u32))
        ensures
            size == (IRRADIANCE_RESOLUTION, IRRADIANCE_RESOLUTION),
    {
        (IRRADIANCE_RESOLUTION, IRRADIANCE_RESOLUTION)
    }

    /// Plans the baking of the irradiance map into `destination_dir`: the
    /// six passes of a cubemap of 32 by 32 pixels.
    pub fn calculate_to_fs(destination_dir: &str, extension: &str) -> (passes: Vec<FacePass>)
        ensures
            is_face_pass_list(
                passes@,
                (IRRADIANCE_RESOLUTION, IRRADIANCE_RESOLUTION),
                destination_dir@,
                extension@,
            ),
    {
        face_passes(IrradianceConverter::output_size(), destination_dir, extension)
    }
}

} // verus!
