//! Rendering a cubemap as six ordinary passes, one per face, each with its
//! own camera and its own output file.

use crate::cube_face::{all_faces, face_at, CameraBasis, CubeFace, FACE_COUNT};
use crate::draw::DepthTest;
use crate::paths::{face_path, spec_face_file_name, spec_join};
use crate::pixels::{flatten_rgba, flattened_rgba};
use crate::shapes::{cube_vertex, get_cube_vertices, CUBE_VERTEX_COUNT};
use crate::texture::{image_fits, Image, ImageError, ImageLoader, PixelFormat};
use crate::vertex::Vertex;
use vstd::prelude::*;

verus! {

/// Field of view of the camera of every pass, in degrees. With a square
/// target this makes the six views meet at the cube's edges.
pub const FACE_FOV_DEGREES: u32 = 90;

/// One of the six passes that render a cubemap to files.
pub struct FacePass {
    /// The face that the pass renders.
    pub face: CubeFace,
    /// Where the camera looks and what it takes as up.
    pub camera: CameraBasis,
    /// Size of the target, which is also the size of the camera's view.
    pub width: u32,
    pub height: u32,
    /// Vertical field of view of the camera, in degrees.
    pub fov_degrees: u32,
    /// The target's colour and depth are cleared before the draw.
    pub clear_color: bool,
    pub clear_depth: bool,
    pub depth_test: DepthTest,
    pub depth_write: bool,
    /// Where the pixels read back after the draw are written.
    pub output_file: String,
}

/// Renders the six faces of a cubemap into image files.
pub struct CubemapRender {
    vertices: Vec<Vertex<i8>>,
}

/// What pass `index` must be when a cubemap of the given size is written
/// into `directory` with the given extension.
pub open spec fn is_face_pass(
    pass: FacePass,
    index: int,
    dimensions: (u32, u32),
    directory: Seq<char>,
    extension: Seq<char>,
) -> bool {
    &&& pass.face == face_at(index)
    &&& pass.camera == face_at(index).spec_bake_basis()
    &&& pass.camera.view_direction == face_at(index).spec_axis()
    &&& pass.width == dimensions.0
    &&& pass.height == dimensions.1
    &&& pass.fov_degrees == FACE_FOV_DEGREES
    &&& pass.clear_color
    &&& pass.clear_depth
    &&& pass.depth_test == DepthTest::IfLessOrEqual
    &&& pass.depth_write
    &&& pass.output_file@ == spec_join(directory, spec_face_file_name(face_at(index), extension))
}

/// The six passes of one cubemap, in face order.
pub open spec fn is_face_pass_list(
    passes: Seq<FacePass>,
    dimensions: (u32, u32),
    directory: Seq<char>,
    extension: Seq<char>,
) -> bool {
    &&& passes.len() == FACE_COUNT
    &&& forall|i: int|
        0 <= i < FACE_COUNT ==> is_face_pass(#[trigger] passes[i], i, dimensions, directory, extension)
}

/// The six passes that write a cubemap of the given size into `directory`.
pub fn face_passes(output_dimensions: (u32, u32), output_directory: &str, extension: &str) -> (passes:
    Vec<FacePass>)
    ensures
        is_face_pass_list(passes@, output_dimensions, output_directory@, extension@),
{
    let faces = all_faces();
    let mut passes: Vec<FacePass> = Vec::with_capacity(FACE_COUNT);
    let mut i: usize = 0;
    while i < FACE_COUNT
        invariant
            i <= FACE_COUNT,
            faces.len() == FACE_COUNT,
            forall|j: int| 0 <= j < FACE_COUNT ==> faces[j] == face_at(j),
            passes@.len() == i,
            forall|j: int|
                0 <= j < i ==> is_face_pass(
                    #[trigger] passes@[j],
                    j,
                    output_dimensions,
                    output_directory@,
                    extension@,
                ),
        decreases FACE_COUNT - i,
    {
        let face = faces[i];
        passes.push(
            FacePass {
                face,
                camera: face.bake_basis(),
                width: output_dimensions.0,
                height: output_dimensions.1,
                fov_degrees: FACE_FOV_DEGREES,
                clear_color: true,
                clear_depth: true,
                depth_test: DepthTest::IfLessOrEqual,
                depth_write: true,
                output_file: face_path(output_directory, face, extension),
            },
        );
        i += 1;
    }
    passes
}

impl CubemapRender {
    /// The mesh that every pass draws: the unit cube around the camera.
    pub closed spec fn spec_vertices(&self) -> Seq<Vertex<i8>> {
        self.vertices@
    }

    /// The renderer holds the cube mesh.
    pub open spec fn wf(&self) -> bool {
        &&& self.spec_vertices().len() == CUBE_VERTEX_COUNT
        &&& forall|i: int|
            0 <= i < CUBE_VERTEX_COUNT ==> (#[trigger] self.spec_vertices()[i]).parts()
                == cube_vertex(i)
    }

    /// A renderer with the cube mesh.
    pub fn new() -> (r: Self)
        ensures
            r.wf(),
    {
        CubemapRender { vertices: get_cube_vertices() }
    }

    /// The mesh to upload and draw in every pass.
    pub fn vertices(&self) -> (v: &Vec<Vertex<i8>>)
        ensures
            v@ == self.spec_vertices(),
    {
        &self.vertices
    }

    /// Plans the rendering of a cubemap: six passes in face order, each
    /// looking along its face's direction with a 90 degree view, clearing
    /// the target, drawing with a less-or-equal depth test, and writing its
    /// pixels to the file named after the face.
    pub fn render(&self, output_dimensions: (u32, u32), output_directory: &str, extension: &str) -> (passes:
        Vec<FacePass>)
        ensures
            is_face_pass_list(passes@, output_dimensions, output_directory@, extension@),
    {
        face_passes(output_dimensions, output_directory, extension)
    }

    /// Turns the pixels read back from a target into the image to write.
    /// Fails exactly when fewer than `width * height` pixels were read.
    pub fn face_image(output_dimensions: (u32, u32), pixels: &Vec<(u8, u8, u8, u8)>) -> (r: Result<
        Image,
        ImageError,
    >)
        requires
            4 * pixels@.len() <= usize::MAX,
        ensures
            r is Ok <==> image_fits(
                4,
                output_dimensions.0 as int,
                output_dimensions.1 as int,
                (4 * pixels@.len()) as int,
            ),
            r is Ok ==> {
                let img = r->Ok_0;
                &&& img.spec_width() == output_dimensions.0
                &&& img.spec_height() == output_dimensions.1
                &&& img.spec_format() == PixelFormat::Rgba8
                &&& img.spec_data() == flattened_rgba(pixels@)
            },
            r is Err ==> r->Err_0 == ImageError::ContainerTooSmall,
    {
        let output = flatten_rgba(pixels);
        ImageLoader::from_memory(PixelFormat::Rgba8, output, output_dimensions.0, output_dimensions.1)
    }
}

} // verus!
