//! Images in memory on their way to becoming textures.

use crate::pixels::{
    flatten_rgb, flip_vertical, flipped, flattened, group_rgb, grouped, PixelError,
};
use image::{DynamicImage, ImageBuffer, Rgb, Rgba};
use vstd::prelude::*;

verus! {

/// Layout of the bytes of an image.
#[derive(Clone, Copy, Debug, PartialEq, Eq, Structural)]
pub enum PixelFormat {
    /// Three bytes a pixel: red, green, blue.
    Rgb8,
    /// Four bytes a pixel: red, green, blue, alpha.
    Rgba8,
}

/// Why an image could not be made.
#[derive(Clone, Copy, Debug, PartialEq, Eq, Structural)]
pub enum ImageError {
    /// The bytes given do not cover `width * height` pixels.
    ContainerTooSmall,
}

impl ImageError {
    /// The message that goes with the error.
    pub fn message(&self) -> (m: &'static str)
        ensures
            m@ == "Container was not large enough"@,
    {
        "Container was not large enough"
    }
}

/// Pixels of three channels with the size of their image, ready for upload.
pub struct RawPixels<T> {
    pub pixels: Vec<(T, T, T)>,
    pub width: u32,
    pub height: u32,
}

/// Bytes with the size and layout of their image, ready for upload.
pub struct RawBytes {
    pub data: Vec<u8>,
    pub width: u32,
    pub height: u32,
    pub format: PixelFormat,
}

/// An image of 8-bit channels held in memory.
pub struct Image {
    width: u32,
    height: u32,
    format: PixelFormat,
    data: Vec<u8>,
}

/// Makes textures out of what is in memory.
pub struct TextureLoader {}

/// Makes images out of what is in memory.
pub struct ImageLoader {}

/// Writes textures out. It has no operation yet.
pub struct TextureSaver {}

/// Writes images out. It has no operation yet.
pub struct ImageSaver {}

/// Number of bytes of one pixel.
pub open spec fn channel_count(format: PixelFormat) -> int {
    match format {
        PixelFormat::Rgb8 => 3,
        PixelFormat::Rgba8 => 4,
    }
}

/// True when `len` values cover an image of the given size: neither a row
/// nor the whole image may need more values than a machine word can count.
pub open spec fn image_fits(channels: int, width: int, height: int, len: int) -> bool {
    &&& channels * width <= usize::MAX
    &&& channels * width * height <= len
}

/// The first `count` three-byte pixels of `data`, each followed by an alpha
/// of 255.
pub open spec fn with_alpha(data: Seq<u8>, count: int) -> Seq<u8> {
    Seq::new(
        (4 * count) as nat,
        |i: int|
            if i % 4 == 3 {
                255u8
            } else {
                data[3 * (i / 4) + i % 4]
            },
    )
}

/// The first `count` pixels of `data` without their alpha, if they have one.
pub open spec fn rgb_of(format: PixelFormat, data: Seq<u8>, count: int) -> Seq<u8> {
    Seq::new((3 * count) as nat, |i: int| data[channel_count(format) * (i / 3) + i % 3])
}

/// The pixels of `data` with an alpha channel: four-channel bytes are kept
/// as they are, three-channel pixels get an alpha of 255.
pub open spec fn rgba_of(format: PixelFormat, data: Seq<u8>, count: int) -> Seq<u8> {
    match format {
        PixelFormat::Rgba8 => data,
        PixelFormat::Rgb8 => with_alpha(data, count),
    }
}

/// Checks bytes against the size of an image.
///
/// Trusted: `image::ImageBuffer::from_raw` accepts the container exactly
/// when a row's and the image's number of channel values can be counted and
/// the container holds that many or more, and keeps the size and the
/// container as they were given.
#[verifier::external_body]
fn image_from_raw(format: PixelFormat, width: u32, height: u32, data: Vec<u8>) -> (out: Option<
    (u32, u32, Vec<u8>),
>)
    ensures
        out is Some <==> image_fits(
            channel_count(format),
            width as int,
            height as int,
            data@.len() as int,
        ),
        match out {
            Some((w, h, d)) => w == width && h == height && d@ == data@,
            None => true,
        },
{
    match format {
        PixelFormat::Rgb8 => match ImageBuffer::<Rgb<u8>, Vec<u8>>::from_raw(width, height, data) {
            Some(img) => Some((img.width(), img.height(), img.into_raw())),
            None => None,
        },
        PixelFormat::Rgba8 => match ImageBuffer::<Rgba<u8>, Vec<u8>>::from_raw(width, height, data) {
            Some(img) => Some((img.width(), img.height(), img.into_raw())),
            None => None,
        },
    }
}

/// Gives an image an alpha channel.
///
/// Trusted: `image::DynamicImage::into_rgba8` hands an `ImageRgba8` back
/// with its container untouched; of an `ImageRgb8` it copies the three bytes
/// of each of the `width * height` pixels and sets alpha to the largest
/// byte, leaving out what the container holds beyond the image.
#[verifier::external_body]
fn image_into_rgba8(format: PixelFormat, width: u32, height: u32, data: Vec<u8>) -> (out: Vec<u8>)
    requires
        image_fits(channel_count(format), width as int, height as int, data@.len() as int),
        image_fits(4, width as int, height as int, usize::MAX as int),
    ensures
        out@ == rgba_of(format, data@, width * height),
{
    let dynamic = match format {
        PixelFormat::Rgb8 => ImageBuffer::from_raw(width, height, data).map(DynamicImage::ImageRgb8),
        PixelFormat::Rgba8 => ImageBuffer::from_raw(width, height, data).map(
            DynamicImage::ImageRgba8,
        ),
    };
    match dynamic {
        Some(image) => image.into_rgba8().into_raw(),
        None => Vec::new(),
    }
}

/// Copies an image out as three-channel bytes.
///
/// Trusted: `image::DynamicImage::to_rgb8` copies the first three bytes of
/// each of the `width * height` pixels, whether the image has three or four
/// channels, and leaves out what the container holds beyond the image.
#[verifier::external_body]
fn image_to_rgb8(format: PixelFormat, width: u32, height: u32, data: Vec<u8>) -> (out: Vec<u8>)
    requires
        image_fits(channel_count(format), width as int, height as int, data@.len() as int),
    ensures
        out@ == rgb_of(format, data@, width * height),
{
    let dynamic = match format {
        PixelFormat::Rgb8 => ImageBuffer::from_raw(width, height, data).map(DynamicImage::ImageRgb8),
        PixelFormat::Rgba8 => ImageBuffer::from_raw(width, height, data).map(
            DynamicImage::ImageRgba8,
        ),
    };
    match dynamic {
        Some(image) => image.to_rgb8().into_raw(),
        None => Vec::new(),
    }
}

impl Image {
    /// The bytes cover the image.
    #[verifier::type_invariant]
    pub closed spec fn wf(&self) -> bool {
        image_fits(
            channel_count(self.format),
            self.width as int,
            self.height as int,
            self.data@.len() as int,
        )
    }

    pub closed spec fn spec_width(&self) -> u32 {
        self.width
    }

    pub closed spec fn spec_height(&self) -> u32 {
        self.height
    }

    pub closed spec fn spec_format(&self) -> PixelFormat {
        self.format
    }

    /// The bytes the image was made from; they may go on beyond the image.
    pub closed spec fn spec_data(&self) -> Seq<u8> {
        self.data@
    }

    /// Number of pixels.
    pub open spec fn spec_pixel_count(&self) -> int {
        self.spec_width() * self.spec_height()
    }

    /// Width and height in pixels. The bytes of an image always cover it.
    pub fn dimensions(&self) -> (d: (u32, u32))
        ensures
            d == (self.spec_width(), self.spec_height()),
            image_fits(
                channel_count(self.spec_format()),
                self.spec_width() as int,
                self.spec_height() as int,
                self.spec_data().len() as int,
            ),
    {
        proof {
            use_type_invariant(self);
        }
        (self.width, self.height)
    }

    /// Layout of the bytes.
    pub fn format(&self) -> (f: PixelFormat)
        ensures
            f == self.spec_format(),
    {
        self.format
    }

    /// Number of bytes that make up the image; the bytes the image was made
    /// from hold at least as many.
    pub fn byte_len(&self) -> (len: usize)
        ensures
            len == channel_count(self.spec_format()) * self.spec_width() * self.spec_height(),
            len <= self.spec_data().len(),
    {
        proof {
            use_type_invariant(self);
        }
        let held = self.data.len();
        let channels: usize = match self.format {
            PixelFormat::Rgb8 => 3,
            PixelFormat::Rgba8 => 4,
        };
        let row: usize = channels * (self.width as usize);
        assert(row * self.height <= held);
        row * (self.height as usize)
    }

    /// The bytes the image was made from.
    pub fn as_raw(&self) -> (data: &Vec<u8>)
        ensures
            data@ == self.spec_data(),
    {
        &self.data
    }

    /// The image as four-channel bytes for upload. An image that has no
    /// alpha channel gets one that is fully opaque.
    pub fn into_raw(self) -> (raw: RawBytes)
        requires
            image_fits(4, self.spec_width() as int, self.spec_height() as int, usize::MAX as int),
        ensures
            raw.width == self.spec_width(),
            raw.height == self.spec_height(),
            raw.format == PixelFormat::Rgba8,
            raw.data@ == rgba_of(self.spec_format(), self.spec_data(), self.spec_pixel_count()),
    {
        proof {
            use_type_invariant(&self);
        }
        let width = self.width;
        let height = self.height;
        let data = image_into_rgba8(self.format, width, height, self.data);
        RawBytes { data, width, height, format: PixelFormat::Rgba8 }
    }

    /// The pixels as three-channel bytes, exactly three for each pixel.
    pub fn into_rgb8(self) -> (data: Vec<u8>)
        ensures
            data@ == rgb_of(self.spec_format(), self.spec_data(), self.spec_pixel_count()),
            data@.len() == 3 * self.spec_pixel_count(),
    {
        proof {
            use_type_invariant(&self);
            assert(self.width * self.height >= 0) by (nonlinear_arith)
                requires
                    self.width >= 0,
                    self.height >= 0,
            ;
        }
        image_to_rgb8(self.format, self.width, self.height, self.data)
    }
}

impl ImageLoader {
    /// Makes an image of `width` by `height` pixels out of bytes in the
    /// given layout. Fails exactly when the bytes do not cover the image.
    pub fn from_memory(format: PixelFormat, data: Vec<u8>, width: u32, height: u32) -> (r: Result<
        Image,
        ImageError,
    >)
        ensures
            r is Ok <==> image_fits(
                channel_count(format),
                width as int,
                height as int,
                data@.len() as int,
            ),
            r is Ok ==> {
                let img = r->Ok_0;
                &&& img.spec_width() == width
                &&& img.spec_height() == height
                &&& img.spec_format() == format
                &&& img.spec_data() == data@
            },
            r is Err ==> r->Err_0 == ImageError::ContainerTooSmall,
    {
        match image_from_raw(format, width, height, data) {
            Some((w, h, d)) => Ok(Image { width: w, height: h, format, data: d }),
            None => Err(ImageError::ContainerTooSmall),
        }
    }

    /// Makes a three-channel image of `width` by `height` pixels out of bytes.
    /// Fails exactly when the bytes do not cover the image.
    pub fn from_memory_u8(data: Vec<u8>, width: u32, height: u32) -> (r: Result<
        Image,
        ImageError,
    >)
        ensures
            r is Ok <==> image_fits(3, width as int, height as int, data@.len() as int),
            r is Ok ==> {
                let img = r->Ok_0;
                &&& img.spec_width() == width
                &&& img.spec_height() == height
                &&& img.spec_format() == PixelFormat::Rgb8
                &&& img.spec_data() == data@
            },
            r is Err ==> r->Err_0 == ImageError::ContainerTooSmall,
    {
        ImageLoader::from_memory(PixelFormat::Rgb8, data, width, height)
    }
}

impl TextureLoader {
    /// Prepares an image for upload.
    pub fn from_image(image: Image) -> (raw: RawBytes)
        requires
            image_fits(4, image.spec_width() as int, image.spec_height() as int, usize::MAX as int),
        ensures
            raw.width == image.spec_width(),
            raw.height == image.spec_height(),
            raw.format == PixelFormat::Rgba8,
            raw.data@ == rgba_of(
                image.spec_format(),
                image.spec_data(),
                image.spec_pixel_count(),
            ),
    {
        image.into_raw()
    }

    /// Prepares three-channel bytes for upload as they are.
    pub fn from_memory_rgb8(buffer: Vec<u8>, width: u32, height: u32) -> (raw: RawBytes)
        ensures
            raw.data@ == buffer@,
            raw.width == width,
            raw.height == height,
            raw.format == PixelFormat::Rgb8,
    {
        RawBytes { data: buffer, width, height, format: PixelFormat::Rgb8 }
    }

    /// Groups a flat buffer of channel values into pixels for upload,
    /// handing the work out to the thread pool.
    pub fn from_memory_f32<T: Copy + Send + Sync>(buffer: &[T], width: u32, height: u32) -> (raw:
        RawPixels<T>)
        ensures
            raw.pixels@ == grouped(buffer@),
            raw.width == width,
            raw.height == height,
    {
        RawPixels { pixels: group_rgb(buffer), width, height }
    }

    /// Groups a flat buffer of channel values into pixels for upload, one
    /// after the other.
    pub fn from_memory_rgbf32<T: Copy>(buffer: Vec<T>, width: u32, height: u32) -> (raw: RawPixels<
        T,
    >)
        ensures
            raw.pixels@ == grouped(buffer@),
            raw.width == width,
            raw.height == height,
    {
        let count = buffer.len() / 3;
        let mut pixels: Vec<(T, T, T)> = Vec::with_capacity(count);
        let mut i: usize = 0;
        while i < count
            invariant
                i <= count,
                count == buffer@.len() / 3,
                3 * count <= buffer@.len() <= usize::MAX,
                pixels@.len() == i,
                forall|j: int| 0 <= j < i ==> pixels@[j] == grouped(buffer@)[j],
            decreases count - i,
        {
            pixels.push((buffer[3 * i], buffer[3 * i + 1], buffer[3 * i + 2]));
            i += 1;
        }
        assert(pixels@ =~= grouped(buffer@));
        RawPixels { pixels, width, height }
    }

    /// Prepares the pixels of a decoded high-dynamic-range image for upload:
    /// the image is turned upside down, because its first row is the top one
    /// and a texture's first row is the bottom one. Fails exactly when the
    /// pixels do not make up `width * height`.
    pub fn from_fs_hdr<T: Copy + Send + Sync>(pixels: Vec<[T; 3]>, width: u32, height: u32) -> (r:
        Result<RawPixels<T>, PixelError>)
        requires
            3 * pixels@.len() <= usize::MAX,
        ensures
            r is Ok <==> pixels@.len() == width * height,
            r is Ok ==> {
                let raw = r->Ok_0;
                &&& raw.width == width
                &&& raw.height == height
                &&& raw.pixels@ == grouped(
                    flattened(flipped(pixels@, width as int, height as int)),
                )
            },
    {
        let mut pixels = pixels;
        match flip_vertical(&mut pixels, width, height) {
            Ok(_) => {
                let data = flatten_rgb(&pixels);
                Ok(TextureLoader::from_memory_f32(data.as_slice(), width, height))
            },
            Err(e) => Err(e),
        }
    }
}

} // verus!
