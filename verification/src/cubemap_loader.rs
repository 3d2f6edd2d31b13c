//! Loading a cubemap: where its files are, in what order its faces go to
//! the device, and how its mip levels are found.

use crate::cube_face::{all_faces, face_at, CubeFace, FACE_COUNT, TEXTURE_CUBE_MAP_POSITIVE_X};
use crate::cubemap_render::{is_face_pass_list, FacePass};
use crate::gpu::TextureId;
use crate::paths::{face_path, level_path, spec_decimal, spec_face_file_name, spec_join};
use crate::texture::{image_fits, rgb_of, Image, ImageError, ImageLoader, PixelFormat, RawBytes};
use vstd::prelude::*;

verus! {

/// A cubemap on the device, by the colour space of its texels.
#[derive(Clone, Copy, Debug, PartialEq, Eq, Structural)]
pub enum CubemapType {
    /// Texels hold linear values.
    Cubemap(TextureId),
    /// Texels hold sRGB values.
    SrgbCubemap(TextureId),
}

/// Loads cubemaps.
pub struct CubemapLoader {}

/// Path of the file of face `index` of a cubemap in `directory`.
pub open spec fn spec_create_paths(directory: Seq<char>, extension: Seq<char>, index: int) -> Seq<
    char,
> {
    spec_join(directory, spec_face_file_name(face_at(index), extension))
}

impl CubemapType {
    /// The texture, whatever its colour space.
    pub fn texture(&self) -> (id: TextureId)
        ensures
            id == match *self {
                CubemapType::Cubemap(t) => t,
                CubemapType::SrgbCubemap(t) => t,
            },
    {
        match self {
            CubemapType::Cubemap(t) => *t,
            CubemapType::SrgbCubemap(t) => *t,
        }
    }
}

impl CubemapLoader {
    /// The six files of a cubemap in `directory`, in face order: `right`,
    /// `left`, `top`, `bottom`, `front`, `back`, each with the extension.
    pub fn create_paths(directory: &str, extension: &str) -> (paths: Vec<String>)
        ensures
            paths@.len() == FACE_COUNT,
            forall|i: int|
                0 <= i < FACE_COUNT ==> (#[trigger] paths@[i])@ == spec_create_paths(
                    directory@,
                    extension@,
                    i,
                ),
    {
        let faces = all_faces();
        let mut paths: Vec<String> = Vec::with_capacity(FACE_COUNT);
        let mut i: usize = 0;
        while i < FACE_COUNT
            invariant
                i <= FACE_COUNT,
                faces.len() == FACE_COUNT,
                forall|j: int| 0 <= j < FACE_COUNT ==> faces[j] == face_at(j),
                paths@.len() == i,
                forall|j: int|
                    0 <= j < i ==> (#[trigger] paths@[j])@ == spec_create_paths(
                        directory@,
                        extension@,
                        j,
                    ),
            decreases FACE_COUNT - i,
        {
            paths.push(face_path(directory, faces[i], extension));
            i += 1;
        }
        paths
    }
}

/// Why a cubemap could not be put together.
#[derive(Clone, Copy, Debug, PartialEq, Eq, Structural)]
pub enum CubemapError {
    /// Fewer than six images were given for the six faces.
    NotEnoughFaces,
    /// No mip level was found at all.
    NoLevels,
    /// A face does not have the size of its level's front face.
    FaceSizeMismatch,
}

impl CubemapError {
    /// The message that goes with the error.
    pub fn message(&self) -> (m: &'static str)
        ensures
            m@ == match *self {
                CubemapError::NotEnoughFaces =>
                    "Vector didn't have enough textures, it should have 6 elements."@,
                CubemapError::NoLevels => "Unable to find any cubemaps."@,
                CubemapError::FaceSizeMismatch => "A face differs in size from its level."@,
            },
    {
        match self {
            CubemapError::NotEnoughFaces =>
                "Vector didn't have enough textures, it should have 6 elements.",
            CubemapError::NoLevels => "Unable to find any cubemaps.",
            CubemapError::FaceSizeMismatch => "A face differs in size from its level.",
        }
    }
}

/// The six sides of one level of a cubemap, each under its own name so that
/// none is put in another's place.
pub struct CubeOrientation<T> {
    pub front: T,
    pub back: T,
    pub left: T,
    pub right: T,
    pub top: T,
    pub bottom: T,
}

impl<T> CubeOrientation<T> {
    /// The side that belongs to a face: right is +X, left -X, top +Y,
    /// bottom -Y, front +Z, back -Z.
    pub open spec fn spec_side(self, face: CubeFace) -> T {
        match face {
            CubeFace::PositiveX => self.right,
            CubeFace::NegativeX => self.left,
            CubeFace::PositiveY => self.top,
            CubeFace::NegativeY => self.bottom,
            CubeFace::PositiveZ => self.front,
            CubeFace::NegativeZ => self.back,
        }
    }

    /// The sides in face order.
    pub open spec fn spec_sides(self) -> Seq<T> {
        seq![self.right, self.left, self.top, self.bottom, self.front, self.back]
    }

    /// Puts six sides together.
    pub fn new(right: T, left: T, top: T, bottom: T, front: T, back: T) -> (c: Self)
        ensures
            c.spec_sides() == seq![right, left, top, bottom, front, back],
    {
        CubeOrientation { front, back, left, right, top, bottom }
    }

    /// Puts the first six of a list together, taken in face order: right,
    /// left, top, bottom, front, back. Fails exactly when the list is
    /// shorter than six.
    pub fn from_array(faces: Vec<T>) -> (r: Result<Self, CubemapError>)
        ensures
            match r {
                Ok(c) => faces@.len() >= FACE_COUNT && c.spec_sides() == faces@.take(
                    FACE_COUNT as int,
                ),
                Err(e) => faces@.len() < FACE_COUNT && e == CubemapError::NotEnoughFaces,
            },
    {
        let mut faces = faces;
        if faces.len() < FACE_COUNT {
            return Err(CubemapError::NotEnoughFaces);
        }
        let ghost all = faces@;
        faces.truncate(FACE_COUNT);
        let back = faces.pop().unwrap();
        let front = faces.pop().unwrap();
        let bottom = faces.pop().unwrap();
        let top = faces.pop().unwrap();
        let left = faces.pop().unwrap();
        let right = faces.pop().unwrap();
        let c = CubeOrientation { front, back, left, right, top, bottom };
        assert(c.spec_sides() =~= all.take(FACE_COUNT as int));
        Ok(c)
    }

    /// The side that an OpenGL cubemap target names; `None` for any other
    /// number.
    pub fn get_from_gl_enum(&self, side: u32) -> (image: Option<&T>)
        ensures
            match image {
                Some(t) => exists|f: CubeFace| f.spec_gl_enum() == side && *t == self.spec_side(f),
                None => side < TEXTURE_CUBE_MAP_POSITIVE_X || side >= TEXTURE_CUBE_MAP_POSITIVE_X
                    + FACE_COUNT,
            },
    {
        match CubeFace::from_gl_enum(side) {
            Some(face) => Some(self.side(face)),
            None => None,
        }
    }

    /// The side that belongs to a face.
    pub fn side(&self, face: CubeFace) -> (image: &T)
        ensures
            *image == self.spec_side(face),
    {
        match face {
            CubeFace::PositiveX => &self.right,
            CubeFace::NegativeX => &self.left,
            CubeFace::PositiveY => &self.top,
            CubeFace::NegativeY => &self.bottom,
            CubeFace::PositiveZ => &self.front,
            CubeFace::NegativeZ => &self.back,
        }
    }

    /// The side at a position of the face order.
    pub fn index(&self, index: usize) -> (image: &T)
        requires
            index < FACE_COUNT,
        ensures
            *image == self.spec_sides()[index as int],
            *image == self.spec_side(face_at(index as int)),
    {
        if index == 0 {
            &self.right
        } else if index == 1 {
            &self.left
        } else if index == 2 {
            &self.top
        } else if index == 3 {
            &self.bottom
        } else if index == 4 {
            &self.front
        } else {
            &self.back
        }
    }
}

/// One face of one level on its way to the device.
pub struct FaceUpload {
    /// OpenGL target of the face.
    pub target: u32,
    /// Mip level.
    pub level: usize,
    /// Size of the face in pixels.
    pub width: u32,
    pub height: u32,
    /// Exactly three bytes for each pixel.
    pub data: Vec<u8>,
}

/// A whole cubemap on its way to the device.
pub struct CubemapUpload {
    /// The highest mip level that is given.
    pub max_level: usize,
    /// Side of the faces of level 0.
    pub dimension: u32,
    /// The faces, level by level, each level in face order.
    pub faces: Vec<FaceUpload>,
}

/// True when every side of the level has the size of the front side.
pub open spec fn level_is_uniform(cube: CubeOrientation<Image>) -> bool {
    forall|s: int|
        0 <= s < FACE_COUNT ==> (#[trigger] cube.spec_sides()[s]).spec_width()
            == cube.front.spec_width() && cube.spec_sides()[s].spec_height()
            == cube.front.spec_height()
}

/// What the upload of side `side` of level `level` must be.
pub open spec fn is_face_upload(
    upload: FaceUpload,
    cube: CubeOrientation<Image>,
    level: int,
    side: int,
) -> bool {
    let image = cube.spec_sides()[side];
    &&& upload.target == TEXTURE_CUBE_MAP_POSITIVE_X + side
    &&& upload.level == level
    &&& upload.width == cube.front.spec_width()
    &&& upload.height == cube.front.spec_height()
    &&& upload.data@ == rgb_of(image.spec_format(), image.spec_data(), image.spec_pixel_count())
    &&& upload.data@.len() == 3 * (upload.width * upload.height)
}

/// What the upload of a list of levels must be.
pub open spec fn is_cubemap_upload(plan: CubemapUpload, cubes: Seq<CubeOrientation<Image>>) -> bool {
    &&& cubes.len() > 0
    &&& plan.max_level == cubes.len() - 1
    &&& plan.dimension == cubes[0].right.spec_width()
    &&& plan.faces@.len() == FACE_COUNT * cubes.len()
    &&& forall|l: int, s: int|
        0 <= l < cubes.len() && 0 <= s < FACE_COUNT ==> is_face_upload(
            #[trigger] plan.faces@[FACE_COUNT * l + s],
            cubes[l],
            l,
            s,
        )
}

fn push_face(
    faces: &mut Vec<FaceUpload>,
    image: Image,
    level: usize,
    side: usize,
    size: (u32, u32),
) -> (ok: bool)
    requires
        side < FACE_COUNT,
    ensures
        ok <==> image.spec_width() == size.0 && image.spec_height() == size.1,
        ok ==> final(faces)@ == old(faces)@.push(final(faces)@.last()) && {
            let upload = final(faces)@.last();
            &&& upload.target == TEXTURE_CUBE_MAP_POSITIVE_X + side
            &&& upload.level == level
            &&& upload.width == size.0
            &&& upload.height == size.1
            &&& upload.data@ == rgb_of(
                image.spec_format(),
                image.spec_data(),
                image.spec_pixel_count(),
            )
            &&& upload.data@.len() == 3 * (upload.width * upload.height)
        },
        !ok ==> final(faces)@ == old(faces)@,
{
    let (width, height) = image.dimensions();
    if width != size.0 || height != size.1 {
        return false;
    }
    let target: u32 = TEXTURE_CUBE_MAP_POSITIVE_X + (side as u32);
    let data = image.into_rgb8();
    faces.push(FaceUpload { target, level, width, height, data });
    true
}

impl CubemapLoader {
    /// Plans the upload of a cubemap from its levels, level 0 first. Every
    /// face goes to the target of its place in the face order, at the level
    /// of its place in the list, as three bytes a pixel.
    ///
    /// Fails when there is no level, and when a side of a level differs in
    /// size from that level's front side: the device is told one size for
    /// the whole level.
    pub fn load_cubemap(cubes: Vec<CubeOrientation<Image>>) -> (r: Result<
        CubemapUpload,
        CubemapError,
    >)
        ensures
            match r {
                Ok(plan) => is_cubemap_upload(plan, cubes@) && forall|l: int|
                    0 <= l < cubes@.len() ==> level_is_uniform(#[trigger] cubes@[l]),
                Err(e) => if cubes@.len() == 0 {
                    e == CubemapError::NoLevels
                } else {
                    e == CubemapError::FaceSizeMismatch && exists|l: int|
                        0 <= l < cubes@.len() && !level_is_uniform(#[trigger] cubes@[l])
                },
            },
    {
        let ghost all = cubes@;
        let mut levels = cubes;
        let count = levels.len();
        if count == 0 {
            return Err(CubemapError::NoLevels);
        }
        let dimension = levels[0].right.dimensions().0;
        let mut faces: Vec<FaceUpload> = Vec::new();
        let mut layer: usize = 0;
        while layer < count
            invariant
                layer <= count,
                all == cubes@,
                count == all.len(),
                count > 0,
                levels@ == all.skip(layer as int),
                faces@.len() == FACE_COUNT * layer,
                forall|l: int, s: int|
                    0 <= l < layer && 0 <= s < FACE_COUNT ==> is_face_upload(
                        #[trigger] faces@[FACE_COUNT * l + s],
                        all[l],
                        l,
                        s,
                    ),
                forall|l: int| 0 <= l < layer ==> level_is_uniform(#[trigger] all[l]),
            decreases count - layer,
        {
            let cube = levels.remove(0);
            assert(cube == all[layer as int]);
            assert(levels@ =~= all.skip(layer + 1));
            let size = cube.front.dimensions();
            let ghost before = faces@;
            let CubeOrientation { front, back, left, right, top, bottom } = cube;
            let ok = push_face(&mut faces, right, layer, 0, size) && push_face(
                &mut faces,
                left,
                layer,
                1,
                size,
            ) && push_face(&mut faces, top, layer, 2, size) && push_face(
                &mut faces,
                bottom,
                layer,
                3,
                size,
            ) && push_face(&mut faces, front, layer, 4, size) && push_face(
                &mut faces,
                back,
                layer,
                5,
                size,
            );
            if !ok {
                proof {
                    let sides = cube.spec_sides();
                    assert(exists|s: int|
                        0 <= s < FACE_COUNT && !(sides[s].spec_width() == cube.front.spec_width()
                            && sides[s].spec_height() == cube.front.spec_height()));
                    assert(!level_is_uniform(all[layer as int]));
                    assert(0 <= layer < cubes@.len() && !level_is_uniform(cubes@[layer as int]));
                }
                return Err(CubemapError::FaceSizeMismatch);
            }
            proof {
                assert(faces@.len() == before.len() + 6);
                assert(forall|k: int| 0 <= k < before.len() ==> faces@[k] == before[k]);
                assert forall|l: int, s: int|
                    0 <= l < layer + 1 && 0 <= s < FACE_COUNT implies is_face_upload(
                    #[trigger] faces@[FACE_COUNT * l + s],
                    all[l],
                    l,
                    s,
                ) by {
                    if l < layer {
                        assert(faces@[FACE_COUNT * l + s] == before[FACE_COUNT * l + s]);
                    }
                }
                assert(level_is_uniform(all[layer as int]));
            }
            layer += 1;
        }
        Ok(CubemapUpload { max_level: count - 1, dimension, faces })
    }
}

/// The search for the mip levels of a cubemap on disk, between two steps.
///
/// Levels live in folders named `0`, `1`, `2` and so on inside one
/// directory. The search asks for one folder after the other and stops at
/// the first that is missing.
pub struct MipScan {
    directory: String,
    extension: String,
    cubes: Vec<CubeOrientation<Image>>,
    level: u32,
}

/// What the backend is asked to do next.
pub enum ScanAction {
    /// Find out whether this folder exists and report it with `on_probe`.
    Probe(MipScan, String),
    /// Decode these six files, in this order, and hand the images to
    /// `on_loaded`. A file that is missing or cannot be decoded ends the
    /// search with the backend's error.
    Load(MipScan, Vec<String>),
    /// The search is over: the upload of the levels found, or the reason why
    /// there is none.
    Finished(Result<CubemapUpload, CubemapError>),
}

/// What `load_cubemap` owes for the levels given.
pub open spec fn is_load_result(
    r: Result<CubemapUpload, CubemapError>,
    cubes: Seq<CubeOrientation<Image>>,
) -> bool {
    match r {
        Ok(plan) => is_cubemap_upload(plan, cubes) && forall|l: int|
            0 <= l < cubes.len() ==> level_is_uniform(#[trigger] cubes[l]),
        Err(e) => if cubes.len() == 0 {
            e == CubemapError::NoLevels
        } else {
            e == CubemapError::FaceSizeMismatch && exists|l: int|
                0 <= l < cubes.len() && !level_is_uniform(#[trigger] cubes[l])
        },
    }
}

impl MipScan {
    #[verifier::type_invariant]
    closed spec fn inv(&self) -> bool {
        self.level == self.cubes@.len()
    }

    /// The directory that holds the level folders.
    pub closed spec fn spec_directory(&self) -> Seq<char> {
        self.directory@
    }

    /// The extension of the face files.
    pub closed spec fn spec_extension(&self) -> Seq<char> {
        self.extension@
    }

    /// The levels loaded so far, level 0 first.
    pub closed spec fn spec_levels(&self) -> Seq<CubeOrientation<Image>> {
        self.cubes@
    }

    /// The folder of the level that is looked for next.
    pub open spec fn spec_next_directory(&self) -> Seq<char> {
        spec_join(self.spec_directory(), spec_decimal(self.spec_levels().len()))
    }

    /// Number of levels loaded so far.
    pub fn levels_loaded(&self) -> (n: u32)
        ensures
            n == self.spec_levels().len(),
    {
        proof {
            use_type_invariant(self);
        }
        self.level
    }

    /// Takes the answer to `Probe`. If the folder exists, its six files are
    /// to be loaded. If it is missing, the search is over: with no level
    /// found it has failed, otherwise the levels found are uploaded.
    pub fn on_probe(self, exists: bool) -> (next: ScanAction)
        ensures
            exists ==> match next {
                ScanAction::Load(scan, paths) => {
                    &&& scan.spec_directory() == self.spec_directory()
                    &&& scan.spec_extension() == self.spec_extension()
                    &&& scan.spec_levels() == self.spec_levels()
                    &&& paths@.len() == FACE_COUNT
                    &&& forall|i: int|
                        0 <= i < FACE_COUNT ==> (#[trigger] paths@[i])@ == spec_create_paths(
                            self.spec_next_directory(),
                            self.spec_extension(),
                            i,
                        )
                },
                _ => false,
            },
            !exists ==> match next {
                ScanAction::Finished(r) => is_load_result(r, self.spec_levels()),
                _ => false,
            },
    {
        proof {
            use_type_invariant(&self);
        }
        if exists {
            let sub_directory = level_path(self.directory.as_str(), self.level);
            let paths = CubemapLoader::create_paths(
                sub_directory.as_str(),
                self.extension.as_str(),
            );
            ScanAction::Load(self, paths)
        } else {
            ScanAction::Finished(CubemapLoader::load_cubemap(self.cubes))
        }
    }

    /// Takes the images of the files named by `Load`. Fewer than six images
    /// end the search with a failure. Otherwise the level is kept and the
    /// next folder is asked for.
    pub fn on_loaded(self, images: Vec<Image>) -> (next: ScanAction)
        ensures
            images@.len() < FACE_COUNT ==> next matches ScanAction::Finished(
                Err(CubemapError::NotEnoughFaces),
            ),
            images@.len() >= FACE_COUNT && self.spec_levels().len() + 1 < u32::MAX ==> match next {
                ScanAction::Probe(scan, directory) => {
                    &&& scan.spec_directory() == self.spec_directory()
                    &&& scan.spec_extension() == self.spec_extension()
                    &&& scan.spec_levels().len() == self.spec_levels().len() + 1
                    &&& scan.spec_levels().drop_last() == self.spec_levels()
                    &&& scan.spec_levels().last().spec_sides() == images@.take(FACE_COUNT as int)
                    &&& directory@ == scan.spec_next_directory()
                },
                _ => false,
            },
            images@.len() >= FACE_COUNT && self.spec_levels().len() + 1 >= u32::MAX ==> match next {
                ScanAction::Finished(r) => exists|levels: Seq<CubeOrientation<Image>>|
                    {
                        &&& levels.drop_last() == self.spec_levels()
                        &&& levels.len() == self.spec_levels().len() + 1
                        &&& levels.last().spec_sides() == images@.take(FACE_COUNT as int)
                        &&& is_load_result(r, levels)
                    },
                _ => false,
            },
    {
        proof {
            use_type_invariant(&self);
        }
        match CubeOrientation::from_array(images) {
            Err(e) => ScanAction::Finished(Err(e)),
            Ok(orientation) => {
                let MipScan { directory, extension, mut cubes, level } = self;
                let ghost before = cubes@;
                cubes.push(orientation);
                assert(cubes@.drop_last() =~= before);
                if level >= u32::MAX - 1 {
                    ScanAction::Finished(CubemapLoader::load_cubemap(cubes))
                } else {
                    let next_directory = level_path(directory.as_str(), level + 1);
                    let scan = MipScan { directory, extension, cubes, level: level + 1 };
                    ScanAction::Probe(scan, next_directory)
                }
            },
        }
    }
}

impl CubemapLoader {
    /// Plans the upload of a cubemap of one level from the images of its six
    /// files, given in the order of `create_paths`. Fails when there are
    /// fewer than six images or when they differ in size.
    pub fn load_from_fs(images: Vec<Image>) -> (r: Result<CubemapUpload, CubemapError>)
        ensures
            images@.len() < FACE_COUNT ==> r == Err::<CubemapUpload, CubemapError>(
                CubemapError::NotEnoughFaces,
            ),
            images@.len() >= FACE_COUNT ==> exists|cube: CubeOrientation<Image>|
                cube.spec_sides() == images@.take(FACE_COUNT as int) && is_load_result(
                    r,
                    seq![cube],
                ),
    {
        match CubeOrientation::from_array(images) {
            Err(e) => Err(e),
            Ok(orientation) => {
                let mut cubes: Vec<CubeOrientation<Image>> = Vec::new();
                cubes.push(orientation);
                assert(cubes@ =~= seq![orientation]);
                CubemapLoader::load_cubemap(cubes)
            },
        }
    }

    /// Starts the search for the mip levels of a cubemap in `directory`:
    /// the folder of level 0 is asked for first.
    pub fn load_mips_fs(directory: &str, extension: &str) -> (next: ScanAction)
        ensures
            match next {
                ScanAction::Probe(scan, first) => {
                    &&& scan.spec_directory() == directory@
                    &&& scan.spec_extension() == extension@
                    &&& scan.spec_levels().len() == 0
                    &&& first@ == spec_join(directory@, spec_decimal(0))
                },
                _ => false,
            },
    {
        let scan = MipScan {
            directory: directory.to_owned(),
            extension: extension.to_owned(),
            cubes: Vec::new(),
            level: 0,
        };
        let first = level_path(directory, 0);
        ScanAction::Probe(scan, first)
    }
}

/// The six sides of one level of a cubemap, each under the name of its axis.
pub struct CubemapLayout<T> {
    pub x_pos: T,
    pub x_neg: T,
    pub y_pos: T,
    pub y_neg: T,
    pub z_pos: T,
    pub z_neg: T,
}

impl<T> CubemapLayout<T> {
    /// The side that belongs to a face.
    pub open spec fn spec_side(self, face: CubeFace) -> T {
        match face {
            CubeFace::PositiveX => self.x_pos,
            CubeFace::NegativeX => self.x_neg,
            CubeFace::PositiveY => self.y_pos,
            CubeFace::NegativeY => self.y_neg,
            CubeFace::PositiveZ => self.z_pos,
            CubeFace::NegativeZ => self.z_neg,
        }
    }

    /// The side that belongs to a face.
    pub fn get_from_gl_enum(&self, layer: CubeFace) -> (side: &T)
        ensures
            *side == self.spec_side(layer),
    {
        match layer {
            CubeFace::PositiveX => &self.x_pos,
            CubeFace::NegativeX => &self.x_neg,
            CubeFace::PositiveY => &self.y_pos,
            CubeFace::NegativeY => &self.y_neg,
            CubeFace::PositiveZ => &self.z_pos,
            CubeFace::NegativeZ => &self.z_neg,
        }
    }
}

/// True when the four-channel bytes of a side cover its size.
pub open spec fn side_fits(raw: RawBytes) -> bool {
    image_fits(4, raw.width as int, raw.height as int, raw.data@.len() as int)
}

fn side_image(raw: RawBytes) -> (r: Result<Image, ImageError>)
    ensures
        r is Ok <==> side_fits(raw),
        r is Err ==> r->Err_0 == ImageError::ContainerTooSmall,
        r is Ok ==> {
            let img = r->Ok_0;
            &&& img.spec_width() == raw.width
            &&& img.spec_height() == raw.height
            &&& img.spec_format() == PixelFormat::Rgba8
            &&& img.spec_data() == raw.data@
        },
{
    ImageLoader::from_memory(PixelFormat::Rgba8, raw.data, raw.width, raw.height)
}

impl CubemapLayout<Image> {
    /// Turns the four-channel pixels read back from the six sides into
    /// images. Fails exactly when the bytes of a side do not cover its size.
    pub fn try_from(other: CubemapLayout<RawBytes>) -> (r: Result<Self, ImageError>)
        ensures
            r is Ok <==> forall|f: CubeFace| side_fits(#[trigger] other.spec_side(f)),
            r is Err ==> r->Err_0 == ImageError::ContainerTooSmall,
            r is Ok ==> forall|f: CubeFace|
                {
                    let img = #[trigger] r->Ok_0.spec_side(f);
                    let raw = other.spec_side(f);
                    &&& img.spec_width() == raw.width
                    &&& img.spec_height() == raw.height
                    &&& img.spec_format() == PixelFormat::Rgba8
                    &&& img.spec_data() == raw.data@
                },
    {
        let CubemapLayout { x_pos, x_neg, y_pos, y_neg, z_pos, z_neg } = other;
        let x_pos = match side_image(x_pos) {
            Ok(i) => i,
            Err(e) => {
                assert(!side_fits(other.spec_side(CubeFace::PositiveX)));
                return Err(e);
            },
        };
        let x_neg = match side_image(x_neg) {
            Ok(i) => i,
            Err(e) => {
                assert(!side_fits(other.spec_side(CubeFace::NegativeX)));
                return Err(e);
            },
        };
        let y_pos = match side_image(y_pos) {
            Ok(i) => i,
            Err(e) => {
                assert(!side_fits(other.spec_side(CubeFace::PositiveY)));
                return Err(e);
            },
        };
        let y_neg = match side_image(y_neg) {
            Ok(i) => i,
            Err(e) => {
                assert(!side_fits(other.spec_side(CubeFace::NegativeY)));
                return Err(e);
            },
        };
        let z_pos = match side_image(z_pos) {
            Ok(i) => i,
            Err(e) => {
                assert(!side_fits(other.spec_side(CubeFace::PositiveZ)));
                return Err(e);
            },
        };
        let z_neg = match side_image(z_neg) {
            Ok(i) => i,
            Err(e) => {
                assert(!side_fits(other.spec_side(CubeFace::NegativeZ)));
                return Err(e);
            },
        };
        Ok(CubemapLayout { x_pos, x_neg, y_pos, y_neg, z_pos, z_neg })
    }
}

/// What the renderer writes is what the loader reads: the file of pass `i`
/// of a cubemap rendered into a directory is the file that the loader
/// takes for face `i` of the cubemap in that directory.
pub proof fn lemma_loader_reads_what_renderer_writes(
    passes: Seq<FacePass>,
    dimensions: (u32, u32),
    directory: Seq<char>,
    extension: Seq<char>,
    i: int,
)
    requires
        is_face_pass_list(passes, dimensions, directory, extension),
        0 <= i < FACE_COUNT,
    ensures
        passes[i].output_file@ == spec_create_paths(directory, extension, i),
        passes[i].face == face_at(i),
{
}

} // verus!
