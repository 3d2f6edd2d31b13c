//! The lookup table of the specular response: one quad drawn once. The
//! table does not depend on the environment.

use crate::cubemap_render::CubemapRender;
use crate::draw::DrawParameters;
use crate::pixels::flattened_rgba;
use crate::shapes::{get_quad_indices, get_quad_vertices, quad_vertex, QUAD_INDICES};
use crate::texture::{Image, ImageError, PixelFormat};
use crate::vertex::Vertex;
use vstd::prelude::*;
use vstd::string::*;

verus! {

/// Size of the lookup table, in pixels.
pub const TARGET_RESOLUTION: (u32, u32) = (512, 512);

/// The single draw that fills the lookup table.
pub struct BrdfPlan {
    pub width: u32,
    pub height: u32,
    /// State of the draw: the defaults, so no depth test and no culling.
    pub draw_parameters: DrawParameters,
    /// Where the table is written.
    pub output_file: String,
}

/// Bakes the lookup table.
pub struct BRDF {
    vertices: Vec<Vertex<i8>>,
    indices: Vec<u32>,
}

impl BRDF {
    pub closed spec fn spec_vertices(&self) -> Seq<Vertex<i8>> {
        self.vertices@
    }

    pub closed spec fn spec_indices(&self) -> Seq<u32> {
        self.indices@
    }

    /// The integrator holds the screen-filling quad and its two triangles.
    pub open spec fn wf(&self) -> bool {
        &&& self.spec_vertices().len() == 4
        &&& forall|i: int|
            0 <= i < 4 ==> (#[trigger] self.spec_vertices()[i]).parts() == quad_vertex(i)
        &&& self.spec_indices() == QUAD_INDICES@
    }

    /// An integrator with the quad.
    pub fn new() -> (b: Self)
        ensures
            b.wf(),
    {
        BRDF { vertices: get_quad_vertices(), indices: get_quad_indices() }
    }

    /// The four vertices to upload.
    pub fn vertices(&self) -> (v: &Vec<Vertex<i8>>)
        ensures
            v@ == self.spec_vertices(),
    {
        &self.vertices
    }

    /// The indices of the two triangles to upload.
    pub fn indices(&self) -> (i: &Vec<u32>)
        ensures
            i@ == self.spec_indices(),
    {
        &self.indices
    }

    /// Plans the baking of the table into `output_file`: one draw of the
    /// quad into a target of 512 by 512 pixels, with default state.
    pub fn calculate_to_fs(&self, output_file: &str) -> (plan: BrdfPlan)
        ensures
            plan.width == TARGET_RESOLUTION.0,
            plan.height == TARGET_RESOLUTION.1,
            plan.draw_parameters == DrawParameters::spec_default(),
            plan.output_file@ == output_file@,
    {
        BrdfPlan {
            width: TARGET_RESOLUTION.0,
            height: TARGET_RESOLUTION.1,
            draw_parameters: DrawParameters::default(),
            output_file: String::from_str(output_file),
        }
    }

    /// Turns the pixels read back from the target into the image to write.
    /// Fails exactly when fewer than 512 times 512 pixels were read.
    pub fn table_image(pixels: &Vec<(u8, u8, u8, u8)>) -> (r: Result<Image, ImageError>)
        requires
            4 * pixels@.len() <= usize::MAX,
        ensures
            r is Ok <==> pixels@.len() >= 512 * 512,
            r is Ok ==> {
                let img = r->Ok_0;
                &&& img.spec_width() == TARGET_RESOLUTION.0
                &&& img.spec_height() == TARGET_RESOLUTION.1
                &&& img.spec_format() == PixelFormat::Rgba8
                &&& img.spec_data() == flattened_rgba(pixels@)
            },
            r is Err ==> r->Err_0 == ImageError::ContainerTooSmall,
    {
        CubemapRender::face_image(TARGET_RESOLUTION, pixels)
    }
}

} // verus!
