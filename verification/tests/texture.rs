use opengl_render::pixels::PixelError;
use opengl_render::texture::{ImageError, ImageLoader, PixelFormat, TextureLoader};

#[test]
fn image_from_bytes_keeps_size_and_bytes() {
    let image = ImageLoader::from_memory_u8(vec![1, 2, 3, 4, 5, 6], 2, 1).unwrap();
    assert_eq!(image.dimensions(), (2, 1));
    assert_eq!(image.format(), PixelFormat::Rgb8);
    assert_eq!(image.as_raw(), &vec![1, 2, 3, 4, 5, 6]);
}

#[test]
fn image_from_too_few_bytes_fails() {
    let r = ImageLoader::from_memory_u8(vec![1, 2, 3, 4, 5], 2, 1);
    assert!(matches!(r, Err(ImageError::ContainerTooSmall)));
    let r = ImageLoader::from_memory_u8(Vec::new(), 1, 1);
    assert!(matches!(r, Err(ImageError::ContainerTooSmall)));
    let r = ImageLoader::from_memory_u8(vec![0; 12], u32::MAX, u32::MAX);
    assert!(matches!(r, Err(ImageError::ContainerTooSmall)));
    let r = ImageLoader::from_memory(PixelFormat::Rgba8, vec![0; 7], 2, 1);
    assert!(matches!(r, Err(ImageError::ContainerTooSmall)));
    assert_eq!(ImageError::ContainerTooSmall.message(), "Container was not large enough");
}

#[test]
fn image_of_no_pixels_needs_no_bytes() {
    let image = ImageLoader::from_memory_u8(Vec::new(), 0, 5).unwrap();
    assert_eq!(image.dimensions(), (0, 5));
    assert_eq!(image.into_rgb8(), Vec::<u8>::new());
}

#[test]
fn upload_of_rgb_image_gets_opaque_alpha() {
    let image = ImageLoader::from_memory_u8(vec![1, 2, 3, 4, 5, 6, 99], 2, 1).unwrap();
    let raw = image.into_raw();
    assert_eq!((raw.width, raw.height), (2, 1));
    assert_eq!(raw.format, PixelFormat::Rgba8);
    assert_eq!(raw.data, vec![1, 2, 3, 255, 4, 5, 6, 255]);
}

#[test]
fn upload_of_rgba_image_is_left_alone() {
    let image =
        ImageLoader::from_memory(PixelFormat::Rgba8, vec![1, 2, 3, 4, 5, 6, 7, 8], 1, 2).unwrap();
    let raw = TextureLoader::from_image(image);
    assert_eq!((raw.width, raw.height), (1, 2));
    assert_eq!(raw.data, vec![1, 2, 3, 4, 5, 6, 7, 8]);
}

#[test]
fn rgb_bytes_of_an_rgba_image_drop_alpha() {
    let image =
        ImageLoader::from_memory(PixelFormat::Rgba8, vec![1, 2, 3, 4, 5, 6, 7, 8], 2, 1).unwrap();
    assert_eq!(image.into_rgb8(), vec![1, 2, 3, 5, 6, 7]);
    let image = ImageLoader::from_memory_u8(vec![1, 2, 3, 4, 5, 6, 7], 2, 1).unwrap();
    assert_eq!(image.into_rgb8(), vec![1, 2, 3, 4, 5, 6]);
}

#[test]
fn texture_from_flat_values() {
    let raw = TextureLoader::from_memory_f32(&[0.5f32, 0.25, 1.0], 1, 1);
    assert_eq!(raw.pixels, vec![(0.5, 0.25, 1.0)]);
    assert_eq!((raw.width, raw.height), (1, 1));
    let raw = TextureLoader::from_memory_rgbf32(vec![1.0f32, 2.0, 3.0, 4.0, 5.0, 6.0, 7.0], 2, 1);
    assert_eq!(raw.pixels, vec![(1.0, 2.0, 3.0), (4.0, 5.0, 6.0)]);
    let raw = TextureLoader::from_memory_rgb8(vec![7, 8, 9], 1, 1);
    assert_eq!(raw.data, vec![7, 8, 9]);
    assert_eq!(raw.format, PixelFormat::Rgb8);
}

#[test]
fn hdr_pixels_are_turned_upside_down() {
    let pixels = vec![
        [1.0f32, 1.5, 1.75],
        [2.0, 2.5, 2.75],
        [3.0, 3.5, 3.75],
        [4.0, 4.5, 4.75],
        [5.0, 5.5, 5.75],
        [6.0, 6.5, 6.75],
    ];
    let raw = TextureLoader::from_fs_hdr(pixels, 2, 3).ok().unwrap();
    assert_eq!(
        raw.pixels,
        vec![
            (5.0, 5.5, 5.75),
            (6.0, 6.5, 6.75),
            (3.0, 3.5, 3.75),
            (4.0, 4.5, 4.75),
            (1.0, 1.5, 1.75),
            (2.0, 2.5, 2.75),
        ]
    );
    assert_eq!((raw.width, raw.height), (2, 3));
    let r = TextureLoader::from_fs_hdr(vec![[0.0f32; 3]; 5], 2, 3);
    assert!(matches!(r, Err(PixelError::SizeMismatch)));
}

#[test]
fn image_knows_how_many_of_its_bytes_count() {
    let image = ImageLoader::from_memory_u8(vec![0; 20], 2, 3).unwrap();
    assert_eq!(image.byte_len(), 18);
    assert_eq!(image.as_raw().len(), 20);
    let image = ImageLoader::from_memory(PixelFormat::Rgba8, vec![0; 24], 2, 3).unwrap();
    assert_eq!(image.byte_len(), 24);
    let image = ImageLoader::from_memory_u8(vec![1, 2], 0, 0).unwrap();
    assert_eq!(image.byte_len(), 0);
}
