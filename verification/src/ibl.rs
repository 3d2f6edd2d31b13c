//! Image-based lighting: the maps that are baked from an environment and
//! the layout in which they are kept on disk.
//!
//! A baked environment is a directory with the prefiltered map in
//! `prefilter/<level>/`, the irradiance map in `ibl_map/` and the lookup
//! table in `brdf.png`.

pub mod brdf;
pub mod irradiance_conversion;
pub mod prefilter;

use crate::cubemap_loader::{spec_create_paths, CubemapLoader, CubemapType};
use crate::cubemap_render::{is_face_pass_list, FacePass};
use crate::cube_face::FACE_COUNT;
use crate::draw::DrawParameters;
use crate::gpu::TextureId;
use crate::ibl::brdf::{BrdfPlan, BRDF, TARGET_RESOLUTION};
use crate::ibl::irradiance_conversion::{IrradianceConverter, IRRADIANCE_RESOLUTION};
use crate::ibl::prefilter::{is_prefilter_plan, spec_mip_levels, LevelPlan, Prefilter};
use crate::paths::{join, spec_decimal, spec_join};
use vstd::prelude::*;

verus! {

/// The three maps of a baked environment, loaded.
pub struct Ibl {
    pub irradiance_map: CubemapType,
    pub prefilter: CubemapType,
    pub brdf: TextureId,
}

/// The specular part of image-based lighting. It has no state of its own.
#[derive(Clone, Copy, Debug)]
pub struct Specular {}

impl Specular {
    pub fn load() -> Self {
        Specular {}
    }
}

/// Everything that is rendered to bake an environment.
pub struct IblBakePlan {
    /// The levels of the prefiltered map.
    pub prefilter: Vec<LevelPlan>,
    /// The six faces of the irradiance map.
    pub irradiance: Vec<FacePass>,
    /// The lookup table.
    pub brdf: BrdfPlan,
}

/// Everything that is read to load a baked environment.
pub struct IblLoadPlan {
    /// The six files of the irradiance map, in face order.
    pub irradiance_files: Vec<String>,
    /// The directory that holds one folder per level of the prefiltered map.
    pub prefilter_dir: String,
    /// The file of the lookup table.
    pub brdf_file: String,
}

/// Directory of the prefiltered map inside a baked environment.
pub open spec fn spec_prefilter_dir(directory: Seq<char>) -> Seq<char> {
    spec_join(directory, "prefilter"@)
}

/// Directory of the irradiance map inside a baked environment.
pub open spec fn spec_irradiance_dir(directory: Seq<char>) -> Seq<char> {
    spec_join(directory, "ibl_map"@)
}

/// File of the lookup table inside a baked environment.
pub open spec fn spec_brdf_file(directory: Seq<char>) -> Seq<char> {
    spec_join(directory, "brdf.png"@)
}

/// Plans the baking of an environment into `output_directory`: the
/// prefiltered map, the irradiance map and the lookup table, all as `png`.
/// None of the three depends on another.
pub fn generate_ibl_from_cubemap(source_mip_levels: u32, output_directory: &str, brdf: &BRDF) -> (plan:
    IblBakePlan)
    ensures
        is_prefilter_plan(
            plan.prefilter@,
            source_mip_levels,
            spec_prefilter_dir(output_directory@),
            "png"@,
        ),
        is_face_pass_list(
            plan.irradiance@,
            (IRRADIANCE_RESOLUTION, IRRADIANCE_RESOLUTION),
            spec_irradiance_dir(output_directory@),
            "png"@,
        ),
        plan.brdf.output_file@ == spec_brdf_file(output_directory@),
        plan.brdf.width == TARGET_RESOLUTION.0,
        plan.brdf.height == TARGET_RESOLUTION.1,
        plan.brdf.draw_parameters == DrawParameters::spec_default(),
{
    let pf_dir = join(output_directory, "prefilter");
    let ir_dir = join(output_directory, "ibl_map");
    let brdf_file = join(output_directory, "brdf.png");
    IblBakePlan {
        prefilter: Prefilter::calculate_to_fs(source_mip_levels, pf_dir.as_str(), "png"),
        irradiance: IrradianceConverter::calculate_to_fs(ir_dir.as_str(), "png"),
        brdf: brdf.calculate_to_fs(brdf_file.as_str()),
    }
}

/// Names what is read to load the environment baked into `directory`.
pub fn load_ibl_fs(directory: &str) -> (plan: IblLoadPlan)
    ensures
        plan.irradiance_files@.len() == FACE_COUNT,
        forall|i: int|
            0 <= i < FACE_COUNT ==> (#[trigger] plan.irradiance_files@[i])@ == spec_create_paths(
                spec_irradiance_dir(directory@),
                "png"@,
                i,
            ),
        plan.prefilter_dir@ == spec_prefilter_dir(directory@),
        plan.brdf_file@ == spec_brdf_file(directory@),
{
    let pf_dir = join(directory, "prefilter");
    let ir_dir = join(directory, "ibl_map");
    let brdf_file = join(directory, "brdf.png");
    IblLoadPlan {
        irradiance_files: CubemapLoader::create_paths(ir_dir.as_str(), "png"),
        prefilter_dir: pf_dir,
        brdf_file,
    }
}

/// What is baked is what is loaded: every file that the bake plan writes
/// for a face of the irradiance map or of a level of the prefiltered map is
/// the file that the loader reads for that face and level, and the lookup
/// table is written where it is read.
pub proof fn lemma_bake_writes_what_load_reads(
    bake: IblBakePlan,
    load: IblLoadPlan,
    directory: Seq<char>,
    source_mip_levels: u32,
    level: int,
    face: int,
)
    requires
        is_prefilter_plan(bake.prefilter@, source_mip_levels, spec_prefilter_dir(directory), "png"@),
        is_face_pass_list(
            bake.irradiance@,
            (IRRADIANCE_RESOLUTION, IRRADIANCE_RESOLUTION),
            spec_irradiance_dir(directory),
            "png"@,
        ),
        bake.brdf.output_file@ == spec_brdf_file(directory),
        load.irradiance_files@.len() == FACE_COUNT,
        forall|i: int|
            0 <= i < FACE_COUNT ==> (#[trigger] load.irradiance_files@[i])@ == spec_create_paths(
                spec_irradiance_dir(directory),
                "png"@,
                i,
            ),
        load.prefilter_dir@ == spec_prefilter_dir(directory),
        load.brdf_file@ == spec_brdf_file(directory),
        0 <= level < spec_mip_levels(source_mip_levels),
        0 <= face < FACE_COUNT,
    ensures
        bake.brdf.output_file@ == load.brdf_file@,
        bake.irradiance@[face].output_file@ == load.irradiance_files@[face]@,
        bake.prefilter@[level].directory@ == spec_join(
            load.prefilter_dir@,
            spec_decimal(level as nat),
        ),
        bake.prefilter@[level].passes@[face].output_file@ == spec_create_paths(
            spec_join(load.prefilter_dir@, spec_decimal(level as nat)),
            "png"@,
            face,
        ),
{
}

} // verus!
