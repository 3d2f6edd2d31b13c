//! Turning a panorama into the six files of a cubemap.

use crate::cubemap_render::{face_passes, is_face_pass_list, FacePass};
use crate::pixels::{flatten_pixels, flattened, mirror_horizontal, mirrored, PixelError};
use vstd::prelude::*;

verus! {

/// Size of the faces made from a panorama of floating-point pixels.
pub const HDR_OUTPUT_SIZE: (u32, u32) = (1024, 1024);

/// Size of the faces made from a panorama of 8-bit pixels.
pub const LDR_OUTPUT_SIZE: (u32, u32) = (2048, 2048);

/// Samples a panorama into the six faces of a cubemap and writes them out.
pub struct Equirectangle {}

/// A panorama ready for upload together with the passes that sample it.
pub struct EquirectanglePlan<T> {
    /// The channel values of the mirrored panorama, three for each pixel.
    pub source_data: Vec<T>,
    /// Size of the panorama in pixels.
    pub source_dimensions: (u32, u32),
    /// The six passes, in face order; each binds the panorama as
    /// `equirectangular_map`.
    pub passes: Vec<FacePass>,
}

/// What a plan made from `pixels` must be.
pub open spec fn is_equirectangle_plan<T>(
    plan: EquirectanglePlan<T>,
    pixels: Seq<[T; 3]>,
    dimensions: (u32, u32),
    output_size: (u32, u32),
    destination: Seq<char>,
    extension: Seq<char>,
) -> bool {
    &&& plan.source_data@ == flattened(mirrored(pixels, dimensions.0 as int))
    &&& plan.source_dimensions == dimensions
    &&& is_face_pass_list(plan.passes@, output_size, destination, extension)
}

fn plan<T: Copy>(
    pixels: Vec<[T; 3]>,
    dimensions: (u32, u32),
    output_size: (u32, u32),
    destination_dir: &str,
    extension: &str,
) -> (r: Result<EquirectanglePlan<T>, PixelError>)
    ensures
        r is Ok <==> pixels@.len() == dimensions.0 * dimensions.1,
        r is Ok ==> is_equirectangle_plan(
            r->Ok_0,
            pixels@,
            dimensions,
            output_size,
            destination_dir@,
            extension@,
        ),
{
    let mut pixels = pixels;
    match mirror_horizontal(&mut pixels, dimensions.0, dimensions.1) {
        Ok(_) => Ok(
            EquirectanglePlan {
                source_data: flatten_pixels(&pixels),
                source_dimensions: dimensions,
                passes: face_passes(output_size, destination_dir, extension),
            },
        ),
        Err(e) => Err(e),
    }
}

impl Equirectangle {
    /// Plans the conversion of a decoded panorama of 8-bit pixels. The
    /// panorama is mirrored about its vertical centre axis once, because its
    /// longitude runs against the direction in which the faces are viewed;
    /// then the six faces are rendered at 2048 by 2048 pixels. Fails exactly
    /// when the pixels do not make up the panorama's size.
    pub fn compute_from_fs<T: Copy>(
        pixels: Vec<[T; 3]>,
        dimensions: (u32, u32),
        destination_dir: &str,
        extension: &str,
    ) -> (r: Result<EquirectanglePlan<T>, PixelError>)
        ensures
            r is Ok <==> pixels@.len() == dimensions.0 * dimensions.1,
            r is Ok ==> is_equirectangle_plan(
                r->Ok_0,
                pixels@,
                dimensions,
                LDR_OUTPUT_SIZE,
                destination_dir@,
                extension@,
            ),
    {
        plan(pixels, dimensions, LDR_OUTPUT_SIZE, destination_dir, extension)
    }

    /// Plans the conversion of a decoded panorama of floating-point pixels:
    /// mirrored once like any panorama, rendered at 1024 by 1024 pixels.
    /// Fails exactly when the pixels do not make up the panorama's size.
    pub fn compute_from_fs_hdr<T: Copy>(
        pixels: Vec<[T; 3]>,
        dimensions: (u32, u32),
        destination_dir: &str,
        extension: &str,
    ) -> (r: Result<EquirectanglePlan<T>, PixelError>)
        ensures
            r is Ok <==> pixels@.len() == dimensions.0 * dimensions.1,
            r is Ok ==> is_equirectangle_plan(
                r->Ok_0,
                pixels@,
                dimensions,
                HDR_OUTPUT_SIZE,
                destination_dir@,
                extension@,
            ),
    {
        plan(pixels, dimensions, HDR_OUTPUT_SIZE, destination_dir, extension)
    }
}

} // verus!
