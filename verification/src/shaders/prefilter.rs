//! Filtering an environment into the mip levels of a cubemap on the device.

use crate::cube_face::{all_faces, face_at, CameraBasis, FACE_COUNT};
use crate::cubemap_render::FACE_FOV_DEGREES;
use crate::draw::DrawParameters;
use crate::ibl::prefilter::{spec_level_resolution, Prefilter as LevelPrefilter, Roughness, BASE_RESOLUTION};
use crate::shaders::LayerPass;
use vstd::prelude::*;

verus! {

/// Number of mip levels below level 0 that the target cubemap is made with.
pub const MAX_MIPMAP: u32 = 4;

/// Filters an environment into the mip levels of a cubemap.
pub struct Prefilter {}

/// Roughness of a level of a map that is filtered on the device: the level
/// divided by the last level, so the last level has roughness 1.
pub open spec fn spec_roughness(level: u32, mip_levels: u32) -> Roughness {
    Roughness { numerator: level, denominator: (mip_levels - 1) as u32 }
}

/// What the pass for mip level `level` of face `face` must be.
pub open spec fn is_prefilter_pass(pass: LayerPass, face: int, level: int, mip_levels: u32) -> bool {
    &&& pass.face == face_at(face)
    &&& pass.mip_level == level
    &&& pass.resolution == spec_level_resolution(BASE_RESOLUTION, pass.mip_level)
    &&& pass.camera == face_at(face).spec_layer_basis()
    &&& pass.fov_degrees == FACE_FOV_DEGREES
    &&& !pass.clear_color
    &&& pass.clear_depth
    &&& pass.parameters == DrawParameters::spec_default()
    &&& pass.roughness == Some(spec_roughness(pass.mip_level, mip_levels))
}

/// The passes of all faces and levels: face after face, and for each face
/// level after level.
pub open spec fn is_prefilter_pass_list(passes: Seq<LayerPass>, mip_levels: u32) -> bool {
    &&& passes.len() == FACE_COUNT * mip_levels
    &&& forall|f: int, l: int|
        0 <= f < FACE_COUNT && 0 <= l < mip_levels ==> is_prefilter_pass(
            #[trigger] passes[f * mip_levels + l],
            f,
            l,
            mip_levels,
        )
}

impl Prefilter {
    /// Plans the filtering of an environment into a cubemap of `mip_levels`
    /// levels: for each face and each level one pass that clears depth and
    /// draws with a roughness that grows from 0 at level 0 to 1 at the last
    /// level.
    pub fn compute(mip_levels: u32) -> (passes: Vec<LayerPass>)
        ensures
            is_prefilter_pass_list(passes@, mip_levels),
    {
        let faces = all_faces();
        let mut passes: Vec<LayerPass> = Vec::new();
        let mut f: usize = 0;
        while f < FACE_COUNT
            invariant
                f <= FACE_COUNT,
                faces.len() == FACE_COUNT,
                forall|j: int| 0 <= j < FACE_COUNT ==> faces[j] == face_at(j),
                passes@.len() == f * mip_levels,
                forall|g: int, l: int|
                    0 <= g < f && 0 <= l < mip_levels ==> is_prefilter_pass(
                        #[trigger] passes@[g * mip_levels + l],
                        g,
                        l,
                        mip_levels,
                    ),
            decreases FACE_COUNT - f,
        {
            let face = faces[f];
            let mut level: u32 = 0;
            while level < mip_levels
                invariant
                    level <= mip_levels,
                    f < FACE_COUNT,
                    face == face_at(f as int),
                    passes@.len() == f * mip_levels + level,
                    forall|g: int, l: int|
                        0 <= g < f && 0 <= l < mip_levels ==> is_prefilter_pass(
                            #[trigger] passes@[g * mip_levels + l],
                            g,
                            l,
                            mip_levels,
                        ),
                    forall|l: int|
                        0 <= l < level ==> is_prefilter_pass(
                            #[trigger] passes@[f * mip_levels + l],
                            f as int,
                            l,
                            mip_levels,
                        ),
                decreases mip_levels - level,
            {
                let ghost before = passes@;
                passes.push(
                    LayerPass {
                        face,
                        mip_level: level,
                        resolution: LevelPrefilter::level_resolution(BASE_RESOLUTION, level),
                        camera: face.layer_basis(),
                        fov_degrees: FACE_FOV_DEGREES,
                        clear_color: false,
                        clear_depth: true,
                        parameters: DrawParameters::default(),
                        roughness: Some(
                            Roughness { numerator: level, denominator: mip_levels - 1 },
                        ),
                    },
                );
                proof {
                    assert forall|g: int, l: int|
                        0 <= g < f && 0 <= l < mip_levels implies is_prefilter_pass(
                        #[trigger] passes@[g * mip_levels + l],
                        g,
                        l,
                        mip_levels,
                    ) by {
                        assert(g * mip_levels + l < f * mip_levels) by (nonlinear_arith)
                            requires
                                0 <= g < f,
                                0 <= l < mip_levels,
                        ;
                        assert(passes@[g * mip_levels + l] == before[g * mip_levels + l]);
                    }
                    assert forall|l: int| 0 <= l < level + 1 implies is_prefilter_pass(
                        #[trigger] passes@[f * mip_levels + l],
                        f as int,
                        l,
                        mip_levels,
                    ) by {
                        if l < level {
                            assert(passes@[f * mip_levels + l] == before[f * mip_levels + l]);
                        }
                    }
                }
                level += 1;
            }
            proof {
                assert((f + 1) * mip_levels == f * mip_levels + mip_levels) by (nonlinear_arith);
            }
            f += 1;
        }
        passes
    }

    /// The camera of each face, in face order.
    pub fn camera_directions() -> (directions: Vec<CameraBasis>)
        ensures
            directions@.len() == FACE_COUNT,
            forall|i: int|
                0 <= i < FACE_COUNT ==> #[trigger] directions@[i] == face_at(i).spec_layer_basis(),
    {
        crate::shaders::camera_directions()
    }
}

/// Roughness is zero at level 0 and never falls from one level to the next.
pub proof fn lemma_roughness_grows_with_level(lower: u32, higher: u32, mip_levels: u32)
    requires
        lower <= higher,
        mip_levels >= 1,
    ensures
        spec_roughness(0, mip_levels).is_zero(),
        spec_roughness(lower, mip_levels).le(spec_roughness(higher, mip_levels)),
{
    let d = (mip_levels - 1) as u32;
    assert(lower * d <= higher * d) by (nonlinear_arith)
        requires
            lower <= higher,
            0 <= d,
    ;
}

} // verus!
