//! Rendering straight into the layers of a cubemap on the device, without a
//! detour over files.

pub mod brdf;
pub mod equi_rect_to_cubemap;
pub mod irradiance_convolution;
pub mod prefilter;

use crate::cube_face::{all_faces, face_at, CameraBasis, CubeFace, FACE_COUNT};
use crate::cubemap_render::FACE_FOV_DEGREES;
use crate::draw::DrawParameters;
use crate::ibl::prefilter::Roughness;
use crate::shapes::CUBE_VERTEX_COUNT;
use vstd::prelude::*;

verus! {

/// One pass that renders into one face of one mip level of a cubemap.
pub struct LayerPass {
    /// The face whose layer is the target.
    pub face: CubeFace,
    /// The mip level whose image is the target.
    pub mip_level: u32,
    /// Side of the target in pixels.
    pub resolution: u32,
    /// Where the camera looks and what it takes as up.
    pub camera: CameraBasis,
    /// Field of view of the camera, in degrees; the view is square.
    pub fov_degrees: u32,
    /// Whether the target's colour is cleared before the draw.
    pub clear_color: bool,
    /// Whether the depth buffer is cleared before the draw.
    pub clear_depth: bool,
    /// State of the draw.
    pub parameters: DrawParameters,
    /// The roughness the pass filters for, where it filters at all.
    pub roughness: Option<Roughness>,
}

/// What pass `index` of a cubemap without mip levels must be.
pub open spec fn is_layer_pass(
    pass: LayerPass,
    index: int,
    resolution: u32,
    parameters: DrawParameters,
) -> bool {
    &&& pass.face == face_at(index)
    &&& pass.mip_level == 0
    &&& pass.resolution == resolution
    &&& pass.camera == face_at(index).spec_layer_basis()
    &&& pass.fov_degrees == FACE_FOV_DEGREES
    &&& pass.clear_color
    &&& pass.clear_depth
    &&& pass.parameters == parameters
    &&& pass.roughness is None
}

/// The six passes of a cubemap without mip levels, in face order.
pub open spec fn is_layer_pass_list(
    passes: Seq<LayerPass>,
    resolution: u32,
    parameters: DrawParameters,
) -> bool {
    &&& passes.len() == FACE_COUNT
    &&& forall|i: int|
        0 <= i < FACE_COUNT ==> is_layer_pass(#[trigger] passes[i], i, resolution, parameters)
}

/// The six passes that render a cubemap without mip levels: one per face, in
/// face order, each looking along the face's own axis.
pub fn layer_passes(resolution: u32, parameters: DrawParameters) -> (passes: Vec<LayerPass>)
    ensures
        is_layer_pass_list(passes@, resolution, parameters),
{
    let faces = all_faces();
    let mut passes: Vec<LayerPass> = Vec::with_capacity(FACE_COUNT);
    let mut i: usize = 0;
    while i < FACE_COUNT
        invariant
            i <= FACE_COUNT,
            faces.len() == FACE_COUNT,
            forall|j: int| 0 <= j < FACE_COUNT ==> faces[j] == face_at(j),
            passes@.len() == i,
            forall|j: int|
                0 <= j < i ==> is_layer_pass(#[trigger] passes@[j], j, resolution, parameters),
        decreases FACE_COUNT - i,
    {
        let face = faces[i];
        passes.push(
            LayerPass {
                face,
                mip_level: 0,
                resolution,
                camera: face.layer_basis(),
                fov_degrees: FACE_FOV_DEGREES,
                clear_color: true,
                clear_depth: true,
                parameters,
                roughness: None,
            },
        );
        i += 1;
    }
    passes
}

/// The camera of each face's layer, in face order.
pub fn camera_directions() -> (directions: Vec<CameraBasis>)
    ensures
        directions@.len() == FACE_COUNT,
        forall|i: int|
            0 <= i < FACE_COUNT ==> #[trigger] directions@[i] == face_at(i).spec_layer_basis(),
        forall|i: int| 0 <= i < FACE_COUNT ==> (#[trigger] directions@[i]).wf(),
{
    let faces = all_faces();
    let mut directions: Vec<CameraBasis> = Vec::with_capacity(FACE_COUNT);
    let mut i: usize = 0;
    while i < FACE_COUNT
        invariant
            i <= FACE_COUNT,
            faces.len() == FACE_COUNT,
            forall|j: int| 0 <= j < FACE_COUNT ==> faces[j] == face_at(j),
            directions@.len() == i,
            forall|j: int| 0 <= j < i ==> #[trigger] directions@[j] == face_at(j).spec_layer_basis(),
            forall|j: int| 0 <= j < i ==> (#[trigger] directions@[j]).wf(),
        decreases FACE_COUNT - i,
    {
        directions.push(faces[i].layer_basis());
        i += 1;
    }
    directions
}

/// The indices that draw the cube mesh: every vertex once, in order.
pub fn cube_indices() -> (indices: Vec<u32>)
    ensures
        indices@.len() == CUBE_VERTEX_COUNT,
        forall|i: int| 0 <= i < CUBE_VERTEX_COUNT ==> indices@[i] == i,
{
    let mut indices: Vec<u32> = Vec::with_capacity(CUBE_VERTEX_COUNT);
    let mut i: u32 = 0;
    while i < 36
        invariant
            i <= 36,
            indices@.len() == i,
            forall|j: int| 0 <= j < i ==> indices@[j] == j,
        decreases 36 - i,
    {
        indices.push(i);
        i += 1;
    }
    indices
}

} // verus!
