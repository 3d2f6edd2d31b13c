//! The names under which the programs find their inputs.

use vstd::prelude::*;

verus! {

/// The panorama that is sampled into a cubemap.
pub const EQUIRECTANGULAR_MAP: &'static str = "equirectangular_map";

/// The cubemap that is convolved or filtered.
pub const ENVIRONMENT_MAP: &'static str = "environment_map";

/// The projection matrix of the pass.
pub const PROJECTION: &'static str = "projection";

/// The view matrix of the pass.
pub const VIEW: &'static str = "view";

/// The roughness that a pass filters for.
pub const ROUGHNESS: &'static str = "roughness";

} // verus!
