use opengl_render::cube_face::{all_faces, CubeFace};
use opengl_render::cubemap_loader::CubemapLoader;
use opengl_render::cubemap_render::CubemapRender;
use opengl_render::draw::{BackfaceCullingMode, Blend, DepthTest, DrawParameters};
use opengl_render::ibl::brdf::BRDF;
use opengl_render::ibl::irradiance_conversion::IrradianceConverter;
use opengl_render::ibl::prefilter::{Prefilter, Roughness};
use opengl_render::ibl::{generate_ibl_from_cubemap, load_ibl_fs};
use opengl_render::material::equirectangle::Equirectangle;
use opengl_render::paths::level_path;
use opengl_render::pixels::PixelError;
use opengl_render::shaders::brdf::BRDF as LookupShader;
use opengl_render::shaders::equi_rect_to_cubemap::EquiRectCubemap;
use opengl_render::shaders::irradiance_convolution::IrradianceConvolution;
use opengl_render::shaders::prefilter::Prefilter as LayerPrefilter;
use opengl_render::shaders::{camera_directions, cube_indices};
use opengl_render::texture::{ImageError, PixelFormat};

fn value(r: Roughness) -> f32 {
    r.numerator as f32 / r.denominator as f32
}

#[test]
fn cubemap_passes_follow_the_face_order() {
    let render = CubemapRender::new();
    assert_eq!(render.vertices().len(), 36);
    let passes = render.render((1024, 512), "out/cubemap", "png");
    assert_eq!(passes.len(), 6);
    let names = ["right", "left", "top", "bottom", "front", "back"];
    let directions = [[1, 0, 0], [-1, 0, 0], [0, 1, 0], [0, -1, 0], [0, 0, 1], [0, 0, -1]];
    for (i, pass) in passes.iter().enumerate() {
        let seen = pass.camera.view_direction;
        assert_eq!([seen.x, seen.y, seen.z], directions[i]);
        assert_eq!(pass.face, all_faces()[i]);
        assert_eq!(pass.face.index(), i);
        assert_eq!(pass.camera, pass.face.bake_basis());
        assert_eq!((pass.width, pass.height), (1024, 512));
        assert_eq!(pass.fov_degrees, 90);
        assert!(pass.clear_color);
        assert!(pass.clear_depth);
        assert_eq!(pass.depth_test, DepthTest::IfLessOrEqual);
        assert!(pass.depth_write);
        assert_eq!(pass.output_file, format!("out/cubemap/{}.png", names[i]));
    }
}

#[test]
fn readback_of_a_face_becomes_an_rgba_image() {
    let pixels = vec![(1u8, 2u8, 3u8, 4u8), (5, 6, 7, 8)];
    let image = CubemapRender::face_image((2, 1), &pixels).unwrap();
    assert_eq!(image.dimensions(), (2, 1));
    assert_eq!(image.format(), PixelFormat::Rgba8);
    assert_eq!(image.as_raw(), &vec![1, 2, 3, 4, 5, 6, 7, 8]);
    let r = CubemapRender::face_image((2, 2), &pixels);
    assert!(matches!(r, Err(ImageError::ContainerTooSmall)));
}

#[test]
fn prefilter_roughness_starts_at_zero_and_never_falls() {
    for source in 0..9u32 {
        let plans = Prefilter::calculate_to_fs(source, "pf", "png");
        assert_eq!(plans.len() as u32, source.min(5));
        if !plans.is_empty() {
            assert_eq!(plans[0].roughness.numerator, 0);
            assert_eq!(value(plans[0].roughness), 0.0);
        }
        for pair in plans.windows(2) {
            assert!(value(pair[0].roughness) <= value(pair[1].roughness));
        }
    }
}

#[test]
fn prefilter_levels_of_a_deep_source() {
    let plans = Prefilter::calculate_to_fs(8, "env/prefilter", "png");
    assert_eq!(plans.len(), 5);
    let sides = [128, 64, 32, 16, 8];
    for (l, plan) in plans.iter().enumerate() {
        assert_eq!(plan.level as usize, l);
        assert_eq!(plan.resolution, sides[l]);
        assert_eq!(plan.roughness, Roughness { numerator: l as u32, denominator: 5 });
        assert_eq!(plan.directory, format!("env/prefilter/{}", l));
        assert_eq!(plan.passes.len(), 6);
        for pass in &plan.passes {
            assert_eq!((pass.width, pass.height), (sides[l], sides[l]));
        }
        assert_eq!(plan.passes[0].output_file, format!("env/prefilter/{}/right.png", l));
        assert_eq!(plan.passes[5].output_file, format!("env/prefilter/{}/back.png", l));
    }
    assert_eq!(value(plans[4].roughness), 0.8);
}

#[test]
fn prefilter_levels_are_bounded_by_the_source() {
    assert_eq!(Prefilter::mip_levels(0), 0);
    assert_eq!(Prefilter::mip_levels(1), 1);
    assert_eq!(Prefilter::mip_levels(4), 4);
    assert_eq!(Prefilter::mip_levels(5), 5);
    assert_eq!(Prefilter::mip_levels(6), 5);
    assert_eq!(Prefilter::mip_levels(u32::MAX), 5);
    let plans = Prefilter::calculate_to_fs(3, "pf", "png");
    assert_eq!(plans.len(), 3);
    assert_eq!(plans[2].roughness, Roughness { numerator: 2, denominator: 3 });
    assert!(Prefilter::calculate_to_fs(0, "pf", "png").is_empty());
}

#[test]
fn level_resolution_halves_and_truncates() {
    assert_eq!(Prefilter::level_resolution(1024, 0), 1024);
    assert_eq!(Prefilter::level_resolution(1024, 4), 64);
    assert_eq!(Prefilter::level_resolution(100, 3), 12);
    assert_eq!(Prefilter::level_resolution(7, 1), 3);
    assert_eq!(Prefilter::level_resolution(1, 1), 0);
    assert_eq!(Prefilter::level_resolution(u32::MAX, 31), 1);
    assert_eq!(Prefilter::level_resolution(u32::MAX, 32), 0);
    assert_eq!(Prefilter::level_resolution(u32::MAX, 40), 0);
    assert_eq!(Prefilter::roughness(3, 4), Roughness { numerator: 3, denominator: 4 });
}

#[test]
fn irradiance_is_always_32_pixels() {
    assert_eq!(IrradianceConverter::output_size(), (32, 32));
    let passes = IrradianceConverter::calculate_to_fs("env/ibl_map", "png");
    assert_eq!(passes.len(), 6);
    for pass in &passes {
        assert_eq!((pass.width, pass.height), (32, 32));
    }
    assert_eq!(passes[2].output_file, "env/ibl_map/top.png");
    assert_eq!(passes[2].face, CubeFace::PositiveY);
}

#[test]
fn brdf_table_is_one_quad_at_512_pixels() {
    let brdf = BRDF::new();
    assert_eq!(brdf.vertices().len(), 4);
    assert_eq!(brdf.indices(), &vec![0, 1, 2, 1, 3, 2]);
    let plan = brdf.calculate_to_fs("env/brdf.png");
    assert_eq!((plan.width, plan.height), (512, 512));
    assert_eq!(plan.output_file, "env/brdf.png");
    assert_eq!(plan.draw_parameters, DrawParameters::default());
    assert_eq!(
        DrawParameters::default(),
        DrawParameters {
            depth_test: DepthTest::Overwrite,
            depth_write: false,
            backface_culling: BackfaceCullingMode::CullingDisabled,
            blend: Blend::AlwaysReplace,
        }
    );
}

#[test]
fn brdf_readback_needs_all_pixels() {
    let pixels = vec![(1u8, 2u8, 3u8, 4u8); 512 * 512];
    let image = BRDF::table_image(&pixels).unwrap();
    assert_eq!(image.dimensions(), (512, 512));
    assert_eq!(image.format(), PixelFormat::Rgba8);
    assert_eq!(image.as_raw().len(), 512 * 512 * 4);
    assert_eq!(&image.as_raw()[..8], &[1, 2, 3, 4, 1, 2, 3, 4]);
    let short = vec![(0u8, 0u8, 0u8, 0u8); 512 * 512 - 1];
    assert!(matches!(BRDF::table_image(&short), Err(ImageError::ContainerTooSmall)));
}

#[test]
fn bake_plan_lays_the_bundle_out() {
    let brdf = BRDF::new();
    let plan = generate_ibl_from_cubemap(9, "env", &brdf);
    assert_eq!(plan.prefilter.len(), 5);
    assert_eq!(plan.prefilter[1].directory, "env/prefilter/1");
    assert_eq!(plan.prefilter[1].passes[1].output_file, "env/prefilter/1/left.png");
    assert_eq!(plan.irradiance.len(), 6);
    assert_eq!(plan.irradiance[4].output_file, "env/ibl_map/front.png");
    assert_eq!(plan.brdf.output_file, "env/brdf.png");
    assert_eq!((plan.brdf.width, plan.brdf.height), (512, 512));
}

#[test]
fn what_is_baked_is_what_is_loaded() {
    let brdf = BRDF::new();
    for dir in ["env", "env/", "", "./a/b"] {
        let bake = generate_ibl_from_cubemap(5, dir, &brdf);
        let load = load_ibl_fs(dir);
        assert_eq!(bake.brdf.output_file, load.brdf_file);
        let written: Vec<String> = bake.irradiance.iter().map(|p| p.output_file.clone()).collect();
        assert_eq!(written, load.irradiance_files);
        for level in &bake.prefilter {
            let folder = level_path(&load.prefilter_dir, level.level);
            assert_eq!(level.directory, folder);
            let written: Vec<String> = level.passes.iter().map(|p| p.output_file.clone()).collect();
            assert_eq!(written, CubemapLoader::create_paths(&folder, "png"));
        }
    }
    let load = load_ibl_fs("env");
    assert_eq!(load.prefilter_dir, "env/prefilter");
    assert_eq!(load.brdf_file, "env/brdf.png");
    assert_eq!(load.irradiance_files[0], "env/ibl_map/right.png");
}

#[test]
fn panorama_is_mirrored_once_before_it_is_sampled() {
    let pixels = vec![[1.0f32, 1.1, 1.2], [2.0, 2.1, 2.2], [3.0, 3.1, 3.2], [4.0, 4.1, 4.2]];
    let plan = Equirectangle::compute_from_fs_hdr(pixels.clone(), (2, 2), "out", "png").ok().unwrap();
    assert_eq!(
        plan.source_data,
        vec![2.0, 2.1, 2.2, 1.0, 1.1, 1.2, 4.0, 4.1, 4.2, 3.0, 3.1, 3.2]
    );
    assert_eq!(plan.source_dimensions, (2, 2));
    assert_eq!(plan.passes.len(), 6);
    assert_eq!((plan.passes[0].width, plan.passes[0].height), (1024, 1024));
    assert_eq!(plan.passes[3].output_file, "out/bottom.png");
    let ldr = vec![[1u8, 2, 3], [4, 5, 6], [7, 8, 9]];
    let plan = Equirectangle::compute_from_fs(ldr, (3, 1), "out", "png").ok().unwrap();
    assert_eq!(plan.source_data, vec![7, 8, 9, 4, 5, 6, 1, 2, 3]);
    assert_eq!((plan.passes[0].width, plan.passes[0].height), (2048, 2048));
    let r = Equirectangle::compute_from_fs_hdr(pixels, (3, 2), "out", "png");
    assert!(matches!(r, Err(PixelError::SizeMismatch)));
}

#[test]
fn layer_passes_look_along_their_own_axis() {
    let passes = EquiRectCubemap::compute(256);
    assert_eq!(passes.len(), 6);
    for (i, pass) in passes.iter().enumerate() {
        assert_eq!(pass.face.index(), i);
        assert_eq!(pass.mip_level, 0);
        assert_eq!(pass.resolution, 256);
        assert_eq!(pass.camera, pass.face.layer_basis());
        assert_eq!(pass.fov_degrees, 90);
        assert!(pass.clear_color && pass.clear_depth);
        assert_eq!(pass.parameters.depth_test, DepthTest::IfLess);
        assert!(pass.parameters.depth_write);
        assert_eq!(pass.roughness, None);
    }
    let passes = IrradianceConvolution::calculate();
    assert_eq!(passes.len(), 6);
    for pass in &passes {
        assert_eq!(pass.resolution, 32);
    }
    assert_eq!(EquiRectCubemap::directions(), camera_directions());
    assert_eq!(IrradianceConvolution::camera_directions(), camera_directions());
    assert_eq!(LayerPrefilter::camera_directions(), camera_directions());
    assert_eq!(camera_directions().len(), 6);
    assert_eq!(cube_indices(), (0..36).collect::<Vec<u32>>());
    let lookup = LookupShader::compute();
    assert_eq!((lookup.width, lookup.height), (512, 512));
    assert_eq!(lookup.vertices.len(), 4);
}

#[test]
fn layer_prefilter_visits_every_level_of_every_face() {
    let passes = LayerPrefilter::compute(5);
    assert_eq!(passes.len(), 30);
    let sides = [128, 64, 32, 16, 8];
    for f in 0..6 {
        for l in 0..5 {
            let pass = &passes[f * 5 + l];
            assert_eq!(pass.face.index(), f);
            assert_eq!(pass.mip_level as usize, l);
            assert_eq!(pass.resolution, sides[l]);
            assert!(!pass.clear_color);
            assert!(pass.clear_depth);
            assert_eq!(pass.parameters, DrawParameters::default());
            assert_eq!(pass.roughness, Some(Roughness { numerator: l as u32, denominator: 4 }));
        }
    }
    assert_eq!(value(passes[4].roughness.unwrap()), 1.0);
    assert_eq!(value(passes[0].roughness.unwrap()), 0.0);
    assert!(LayerPrefilter::compute(0).is_empty());
    let single = LayerPrefilter::compute(1);
    assert_eq!(single.len(), 6);
    assert_eq!(single[0].roughness, Some(Roughness { numerator: 0, denominator: 0 }));
}

#[test]
fn programs_find_their_inputs_by_name() {
    assert_eq!(opengl_render::uniforms::EQUIRECTANGULAR_MAP, "equirectangular_map");
    assert_eq!(opengl_render::uniforms::ENVIRONMENT_MAP, "environment_map");
    assert_eq!(opengl_render::uniforms::PROJECTION, "projection");
    assert_eq!(opengl_render::uniforms::VIEW, "view");
    assert_eq!(opengl_render::uniforms::ROUGHNESS, "roughness");
}
