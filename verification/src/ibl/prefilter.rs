//! The prefiltered specular map: one cubemap per roughness, stored as the
//! mip levels of a single cubemap.

use crate::cubemap_render::{face_passes, is_face_pass_list, FacePass};
use crate::paths::{level_path, spec_decimal, spec_join};
use vstd::arithmetic::div_mod::lemma_div_denominator;
use vstd::arithmetic::power2::{lemma_pow2_pos, lemma_pow2_unfold, pow2};
use vstd::prelude::*;

verus! {

/// The most mip levels that are ever baked.
pub const MAX_MIP_LEVELS: u32 = 5;

/// Side of the faces of mip level 0, in pixels.
pub const BASE_RESOLUTION: u32 = 128;

/// A roughness between 0 and 1, kept as a fraction so that nothing is
/// rounded before the backend needs a number.
#[derive(Clone, Copy, Debug, PartialEq, Eq, Structural)]
pub struct Roughness {
    pub numerator: u32,
    pub denominator: u32,
}

/// All that is needed to bake one mip level into its own folder.
pub struct LevelPlan {
    /// The mip level, which is also the name of the folder.
    pub level: u32,
    /// The roughness that the level is filtered for.
    pub roughness: Roughness,
    /// Side of the level's faces, in pixels.
    pub resolution: u32,
    /// The folder that takes the level's six files.
    pub directory: String,
    /// The six passes, in face order.
    pub passes: Vec<FacePass>,
}

/// Bakes the prefiltered specular map.
pub struct Prefilter {}

impl Roughness {
    /// `self <= other` as fractions with positive denominators.
    pub open spec fn le(self, other: Roughness) -> bool {
        self.numerator * other.denominator <= other.numerator * self.denominator
    }

    /// The fraction is zero.
    pub open spec fn is_zero(self) -> bool {
        self.numerator == 0
    }
}

/// Number of levels baked from a source with `source_mip_levels` levels.
pub open spec fn spec_mip_levels(source_mip_levels: u32) -> u32 {
    if source_mip_levels < MAX_MIP_LEVELS {
        source_mip_levels
    } else {
        MAX_MIP_LEVELS
    }
}

/// Side of the faces of a level: the base halved once per level, cut down to
/// a whole number.
pub open spec fn spec_level_resolution(base: u32, level: u32) -> int {
    base as int / pow2(level as nat) as int
}

/// Roughness of a level of a map that is baked to files: the level divided
/// by the number of levels, so the last level stays below 1.
pub open spec fn spec_roughness(level: u32, mip_levels: u32) -> Roughness {
    Roughness { numerator: level, denominator: mip_levels }
}

/// What the plan of level `level` must be.
pub open spec fn is_level_plan(
    plan: LevelPlan,
    level: int,
    mip_levels: u32,
    destination: Seq<char>,
    extension: Seq<char>,
) -> bool {
    &&& plan.level == level
    &&& plan.roughness == spec_roughness(plan.level, mip_levels)
    &&& plan.resolution == spec_level_resolution(BASE_RESOLUTION, plan.level)
    &&& plan.directory@ == spec_join(destination, spec_decimal(level as nat))
    &&& is_face_pass_list(
        plan.passes@,
        (plan.resolution, plan.resolution),
        plan.directory@,
        extension,
    )
}

/// The plans of all levels, from level 0 up.
pub open spec fn is_prefilter_plan(
    plans: Seq<LevelPlan>,
    source_mip_levels: u32,
    destination: Seq<char>,
    extension: Seq<char>,
) -> bool {
    &&& plans.len() == spec_mip_levels(source_mip_levels)
    &&& forall|l: int|
        0 <= l < plans.len() ==> is_level_plan(
            #[trigger] plans[l],
            l,
            spec_mip_levels(source_mip_levels),
            destination,
            extension,
        )
}

impl Prefilter {
    /// Number of levels to bake: as many as the source has, five at most.
    pub fn mip_levels(source_mip_levels: u32) -> (levels: u32)
        ensures
            levels == spec_mip_levels(source_mip_levels),
            levels <= MAX_MIP_LEVELS,
            levels <= source_mip_levels,
    {
        if source_mip_levels < MAX_MIP_LEVELS {
            source_mip_levels
        } else {
            MAX_MIP_LEVELS
        }
    }

    /// Side of the faces of a level.
    pub fn level_resolution(base: u32, level: u32) -> (side: u32)
        ensures
            side == spec_level_resolution(base, level),
    {
        let mut side: u32 = base;
        let mut done: u32 = 0;
        proof {
            assert(pow2(0) == 1) by {
                lemma_pow2_unfold(1);
                vstd::arithmetic::power2::lemma2_to64();
            }
        }
        while done < level
            invariant
                done <= level,
                side == base as int / pow2(done as nat) as int,
            decreases level - done,
        {
            proof {
                lemma_pow2_pos(done as nat);
                lemma_pow2_unfold((done + 1) as nat);
                lemma_div_denominator(base as int, pow2(done as nat) as int, 2);
            }
            side = side / 2;
            done += 1;
        }
        side
    }

    /// Roughness of a level of a map of `mip_levels` levels that is baked
    /// to files.
    pub fn roughness(level: u32, mip_levels: u32) -> (r: Roughness)
        ensures
            r == spec_roughness(level, mip_levels),
    {
        Roughness { numerator: level, denominator: mip_levels }
    }

    /// Plans the baking of the prefiltered map into `destination_dir`: one
    /// folder per level, named by the level's number, each taking the six
    /// faces of that level. Roughness starts at zero and grows with the
    /// level.
    pub fn calculate_to_fs(source_mip_levels: u32, destination_dir: &str, extension: &str) -> (plans:
        Vec<LevelPlan>)
        ensures
            is_prefilter_plan(plans@, source_mip_levels, destination_dir@, extension@),
            plans@.len() > 0 ==> plans@[0].roughness.is_zero(),
            forall|i: int, j: int|
                0 <= i <= j < plans@.len() ==> plans@[i].roughness.le(plans@[j].roughness),
    {
        let mip_levels = Prefilter::mip_levels(source_mip_levels);
        let mut plans: Vec<LevelPlan> = Vec::new();
        let mut level: u32 = 0;
        while level < mip_levels
            invariant
                level <= mip_levels,
                mip_levels == spec_mip_levels(source_mip_levels),
                plans@.len() == level,
                forall|l: int|
                    0 <= l < level ==> is_level_plan(
                        #[trigger] plans@[l],
                        l,
                        mip_levels,
                        destination_dir@,
                        extension@,
                    ),
            decreases mip_levels - level,
        {
            let resolution = Prefilter::level_resolution(BASE_RESOLUTION, level);
            let directory = level_path(destination_dir, level);
            let passes = face_passes((resolution, resolution), directory.as_str(), extension);
            plans.push(
                LevelPlan {
                    level,
                    roughness: Prefilter::roughness(level, mip_levels),
                    resolution,
                    directory,
                    passes,
                },
            );
            level += 1;
        }
        proof {
            assert forall|i: int, j: int| 0 <= i <= j < plans@.len() implies plans@[i].roughness.le(
                plans@[j].roughness,
            ) by {
                lemma_roughness_grows_with_level(i as u32, j as u32, mip_levels);
            }
        }
        plans
    }
}

/// Roughness is zero at level 0 and never falls from one level to the next.
pub proof fn lemma_roughness_grows_with_level(lower: u32, higher: u32, mip_levels: u32)
    requires
        lower <= higher,
    ensures
        spec_roughness(0, mip_levels).is_zero(),
        spec_roughness(lower, mip_levels).le(spec_roughness(higher, mip_levels)),
{
    assert(lower * mip_levels <= higher * mip_levels) by (nonlinear_arith)
        requires
            lower <= higher,
            0 <= mip_levels,
    ;
}

/// A level's faces are never larger than those of the level before, and
/// level 0 has the base resolution.
pub proof fn lemma_resolution_shrinks_with_level(base: u32, level: u32)
    requires
        level < u32::MAX,
    ensures
        spec_level_resolution(base, 0) == base,
        0 <= spec_level_resolution(base, (level + 1) as u32) <= spec_level_resolution(base, level),
        spec_level_resolution(base, (level + 1) as u32) == spec_level_resolution(base, level) / 2,
{
    vstd::arithmetic::power2::lemma2_to64();
    lemma_pow2_pos(level as nat);
    lemma_pow2_unfold((level + 1) as nat);
    lemma_div_denominator(base as int, pow2(level as nat) as int, 2);
}

} // verus!
