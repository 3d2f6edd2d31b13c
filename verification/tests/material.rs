use opengl_render::cubemap_loader::CubemapType;
use opengl_render::draw::{BackfaceCullingMode, Blend, DepthTest};
use opengl_render::gpu::{BufferId, ProgramId, TextureId};
use opengl_render::gui::DebugGUIFormat;
use opengl_render::lights::RawLights;
use opengl_render::material::pbr::{PBRTextures, PbrDraw, PBR};
use opengl_render::material::skybox::SkyboxMat;
use opengl_render::material::{MaterialKind, MaterialRef};
use opengl_render::renderer::{IndexSource, RenderScene};
use opengl_render::skybox::Skybox;

fn textures() -> PBRTextures {
    PBRTextures {
        albedo: TextureId(1),
        metallic: TextureId(2),
        roughness: TextureId(3),
        ao: TextureId(4),
    }
}

fn sky() -> Skybox {
    let mat = SkyboxMat::load_from_cubemap(ProgramId(9), CubemapType::SrgbCubemap(TextureId(20)), 0);
    Skybox::new(BufferId(5), mat)
}

fn scene_with(skybox: Option<Skybox>) -> RenderScene<[f32; 3]> {
    let mut scene = RenderScene::new();
    scene.set_skybox(skybox);
    scene
}

fn draw(pbr: &PBR, skybox: Option<Skybox>) -> Option<PbrDraw> {
    let scene = scene_with(skybox);
    pbr.render(BufferId(30), IndexSource::NoIndices, scene.get_scene_data())
}

#[test]
fn pbr_without_skybox_draws_nothing() {
    let pbr = PBR::new(ProgramId(7), textures(), 0);
    assert_eq!(draw(&pbr, None), None);
}

#[test]
fn pbr_with_incomplete_environment_draws_nothing() {
    let pbr = PBR::new(ProgramId(7), textures(), 0);
    let ibl = Some(CubemapType::Cubemap(TextureId(21)));
    let prefilter = Some(CubemapType::Cubemap(TextureId(22)));
    let brdf = Some(TextureId(23));
    assert_eq!(draw(&pbr, Some(sky())), None);
    for missing in 0..3 {
        let mut skybox = sky();
        if missing != 0 {
            skybox.set_ibl(ibl);
        }
        if missing != 1 {
            skybox.set_prefilter(prefilter);
        }
        if missing != 2 {
            skybox.set_brdf(brdf);
        }
        assert_eq!(draw(&pbr, Some(skybox)), None);
    }
    let mut skybox = sky();
    skybox.set_ibl(ibl);
    skybox.set_brdf(brdf);
    skybox.set_prefilter(Some(CubemapType::SrgbCubemap(TextureId(22))));
    assert_eq!(draw(&pbr, Some(skybox)), None);
}

#[test]
fn pbr_with_environment_samples_all_maps() {
    let mut pbr = PBR::new(ProgramId(7), textures(), 3);
    let mut params = *pbr.get_pbr_params();
    params.set_albedo_map(TextureId(11));
    params.set_ao_map(TextureId(14));
    pbr.set_pbr_params(params);
    let mut skybox = sky();
    skybox.set_ibl(Some(CubemapType::SrgbCubemap(TextureId(21))));
    skybox.set_prefilter(Some(CubemapType::Cubemap(TextureId(22))));
    skybox.set_brdf(Some(TextureId(23)));
    assert_eq!(skybox.get_ibl(), Some(CubemapType::SrgbCubemap(TextureId(21))));
    assert_eq!(skybox.get_prefilter(), Some(CubemapType::Cubemap(TextureId(22))));
    assert_eq!(skybox.get_brdf(), Some(TextureId(23)));
    let scene = scene_with(Some(skybox));
    let index = IndexSource::IndexBuffer { buffer: BufferId(31), elements: 12 };
    let d = pbr.render(BufferId(30), index, scene.get_scene_data()).unwrap();
    assert_eq!(
        d,
        PbrDraw {
            vertex_buffer: BufferId(30),
            index_buffer: index,
            program: ProgramId(7),
            parameters: MaterialKind::Pbr.draw_parameters(),
            albedo_map: TextureId(11),
            metallic_map: TextureId(2),
            roughness_map: TextureId(3),
            ao_map: TextureId(14),
            irradiance_map: CubemapType::SrgbCubemap(TextureId(21)),
            prefilter_map: TextureId(22),
            brdf_lut: TextureId(23),
            skybox: CubemapType::SrgbCubemap(TextureId(20)),
        }
    );
    assert_eq!(pbr.material_ref(), MaterialRef { kind: MaterialKind::Pbr, instance: 3 });
    assert!(!pbr.equal(&pbr));
}

#[test]
fn pbr_maps_are_replaced_one_at_a_time() {
    let mut t = textures();
    t.set_metallic_map(TextureId(12));
    assert_eq!(t, PBRTextures { metallic: TextureId(12), ..textures() });
    t.set_roughness_map(TextureId(13));
    assert_eq!(t.roughness, TextureId(13));
    assert_eq!(t.albedo, TextureId(1));
}

#[test]
fn skybox_draws_at_the_far_plane() {
    let p = MaterialKind::Skybox.draw_parameters();
    assert_eq!(p.depth_test, DepthTest::IfLessOrEqual);
    assert!(p.depth_write);
    assert_eq!(p.backface_culling, BackfaceCullingMode::CullCounterClockwise);
    assert_eq!(p.blend, Blend::AlwaysReplace);
    assert_eq!(sky().get_skybox().draw_parameters(), p);
    for kind in [MaterialKind::Simple, MaterialKind::Phong, MaterialKind::Basic, MaterialKind::Custom(1)] {
        let p = kind.draw_parameters();
        assert_eq!(p.depth_test, DepthTest::IfLess);
        assert!(p.depth_write);
        assert_eq!(p.blend, Blend::AlwaysReplace);
    }
    let p = MaterialKind::Pbr.draw_parameters();
    assert_eq!(p.depth_test, DepthTest::IfLess);
    assert_eq!(p.blend, Blend::SourceAlpha);
}

#[test]
fn kinds_have_tags_of_their_own() {
    let kinds = [
        MaterialKind::Simple,
        MaterialKind::Phong,
        MaterialKind::Basic,
        MaterialKind::Pbr,
        MaterialKind::Skybox,
        MaterialKind::Custom(0),
        MaterialKind::Custom(1),
        MaterialKind::Custom(u32::MAX),
    ];
    for a in kinds {
        for b in kinds {
            assert_eq!(a.type_tag() == b.type_tag(), a == b);
            assert_eq!(a.same_material(b), a == b);
        }
    }
    assert_eq!(MaterialKind::Custom(u32::MAX).type_tag(), 5 + u32::MAX as u64);
}

#[test]
fn skybox_materials_equal_each_other_only() {
    let mat = sky().get_skybox();
    assert!(mat.equal(MaterialKind::Skybox));
    assert!(!mat.equal(MaterialKind::Pbr));
    assert!(!mat.equal(MaterialKind::Custom(4)));
    assert_eq!(mat.get_cubemap(), CubemapType::SrgbCubemap(TextureId(20)));
    assert_eq!(mat.program(), ProgramId(9));
    assert!(sky().eq(&sky()));
    let mut other = Skybox::new(
        BufferId(6),
        SkyboxMat::load_from_cubemap(ProgramId(1), CubemapType::Cubemap(TextureId(2)), 4),
    );
    other.set_brdf(Some(TextureId(8)));
    assert!(sky() == other);
    assert!(!(sky() != other));
    assert_ne!(sky().entry(), other.entry());
}

#[test]
fn lights_keep_position_and_colour_together() {
    let mut lights: RawLights<[f32; 3]> = RawLights::new();
    assert_eq!(lights.len(), 0);
    lights.add_light([0.0, 0.4, -10.0], [300.0, 300.0, 300.0]);
    lights.add_light([1.0, 1.0, 1.0], [1.0, 0.5, 0.25]);
    assert_eq!(lights.len(), 2);
    assert_eq!(lights.get_light(0), (&[0.0, 0.4, -10.0], &[300.0, 300.0, 300.0]));
    assert_eq!(lights.get_light(1), (&[1.0, 1.0, 1.0], &[1.0, 0.5, 0.25]));
    let (positions, colors) = lights.get_lights();
    assert_eq!(positions.len(), 2);
    assert_eq!(colors.len(), 2);
}

#[test]
fn sliders_are_named_only_when_every_value_has_a_name() {
    assert!(DebugGUIFormat::multi_slider_uses_names(3, Some(3)));
    assert!(DebugGUIFormat::multi_slider_uses_names(3, Some(4)));
    assert!(!DebugGUIFormat::multi_slider_uses_names(3, Some(2)));
    assert!(!DebugGUIFormat::multi_slider_uses_names(3, None));
    assert!(DebugGUIFormat::multi_slider_uses_names(0, Some(0)));
    assert!(!DebugGUIFormat::multi_slider_uses_names(0, None));
}
