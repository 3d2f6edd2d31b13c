//! The physically based material.

use crate::cubemap_loader::CubemapType;
use crate::draw::DrawParameters;
use crate::gpu::{BufferId, ProgramId, TextureId};
use crate::material::{MaterialKind, MaterialRef};
use crate::renderer::{IndexSource, SceneData};
use crate::skybox::Skybox;
use vstd::prelude::*;

verus! {

/// The texture maps of a physically based surface.
#[derive(Clone, Copy, Debug, PartialEq, Eq, Structural)]
pub struct PBRTextures {
    pub albedo: TextureId,
    pub metallic: TextureId,
    pub roughness: TextureId,
    pub ao: TextureId,
}

/// The physically based material: a program and the maps of one surface.
#[derive(Clone, Copy, Debug, PartialEq, Eq, Structural)]
pub struct PBR {
    program: ProgramId,
    pbr_params: PBRTextures,
    instance: u32,
}

/// One draw call of the physically based material, with every texture it
/// samples.
#[derive(Clone, Copy, Debug, PartialEq, Eq, Structural)]
pub struct PbrDraw {
    pub vertex_buffer: BufferId,
    pub index_buffer: IndexSource,
    pub program: ProgramId,
    pub parameters: DrawParameters,
    pub albedo_map: TextureId,
    pub metallic_map: TextureId,
    pub roughness_map: TextureId,
    pub ao_map: TextureId,
    pub irradiance_map: CubemapType,
    pub prefilter_map: TextureId,
    pub brdf_lut: TextureId,
    pub skybox: CubemapType,
}

/// The environment lights a surface only when all of it is there: a skybox
/// with an irradiance map, a lookup table, and a prefiltered map that holds
/// linear values.
pub open spec fn has_environment(skybox: Option<Skybox>) -> bool {
    match skybox {
        Some(s) => s.spec_ibl() is Some && s.spec_brdf() is Some && s.spec_prefilter() matches Some(
            CubemapType::Cubemap(_),
        ),
        None => false,
    }
}

impl PBRTextures {
    /// Replaces the albedo map; the other maps stay.
    pub fn set_albedo_map(&mut self, map: TextureId)
        ensures
            *final(self) == (PBRTextures { albedo: map, ..*old(self) }),
    {
        self.albedo = map;
    }

    /// Replaces the metallic map; the other maps stay.
    pub fn set_metallic_map(&mut self, map: TextureId)
        ensures
            *final(self) == (PBRTextures { metallic: map, ..*old(self) }),
    {
        self.metallic = map;
    }

    /// Replaces the roughness map; the other maps stay.
    pub fn set_roughness_map(&mut self, map: TextureId)
        ensures
            *final(self) == (PBRTextures { roughness: map, ..*old(self) }),
    {
        self.roughness = map;
    }

    /// Replaces the ambient occlusion map; the other maps stay.
    pub fn set_ao_map(&mut self, map: TextureId)
        ensures
            *final(self) == (PBRTextures { ao: map, ..*old(self) }),
    {
        self.ao = map;
    }
}

impl PBR {
    pub closed spec fn spec_program(&self) -> ProgramId {
        self.program
    }

    pub closed spec fn spec_pbr_params(&self) -> PBRTextures {
        self.pbr_params
    }

    pub closed spec fn spec_instance(&self) -> u32 {
        self.instance
    }

    /// The material as a render entry names it.
    pub open spec fn spec_material_ref(&self) -> MaterialRef {
        MaterialRef { kind: MaterialKind::Pbr, instance: self.spec_instance() }
    }

    /// The draw call that `render` issues when the environment is there.
    pub open spec fn spec_draw(
        &self,
        vertex_buffer: BufferId,
        index_buffer: IndexSource,
        skybox: Skybox,
    ) -> PbrDraw {
        PbrDraw {
            vertex_buffer,
            index_buffer,
            program: self.spec_program(),
            parameters: MaterialKind::Pbr.spec_draw_parameters(),
            albedo_map: self.spec_pbr_params().albedo,
            metallic_map: self.spec_pbr_params().metallic,
            roughness_map: self.spec_pbr_params().roughness,
            ao_map: self.spec_pbr_params().ao,
            irradiance_map: skybox.spec_ibl()->0,
            prefilter_map: skybox.spec_prefilter()->0->Cubemap_0,
            brdf_lut: skybox.spec_brdf()->0,
            skybox: skybox.spec_skybox().spec_cubemap(),
        }
    }

    /// A material with the given program and maps.
    pub fn new(program: ProgramId, pbr_params: PBRTextures, instance: u32) -> (m: Self)
        ensures
            m.spec_program() == program,
            m.spec_pbr_params() == pbr_params,
            m.spec_instance() == instance,
    {
        PBR { program, pbr_params, instance }
    }

    /// Replaces the maps; program and instance stay.
    pub fn set_pbr_params(&mut self, pbr_textures: PBRTextures)
        ensures
            final(self).spec_pbr_params() == pbr_textures,
            final(self).spec_program() == old(self).spec_program(),
            final(self).spec_instance() == old(self).spec_instance(),
    {
        self.pbr_params = pbr_textures;
    }

    pub fn get_pbr_params(&self) -> (p: &PBRTextures)
        ensures
            *p == self.spec_pbr_params(),
    {
        &self.pbr_params
    }

    /// The material as a render entry names it.
    pub fn material_ref(&self) -> (m: MaterialRef)
        ensures
            m == self.spec_material_ref(),
    {
        MaterialRef { kind: MaterialKind::Pbr, instance: self.instance }
    }

    /// Decides the draw call for one piece of geometry. Without a skybox, or
    /// with a skybox that lacks its irradiance map, its lookup table or a
    /// prefiltered map of linear values, nothing is drawn and nothing
    /// fails: a scene may be put together before its environment is ready.
    pub fn render<V>(
        &self,
        vertex_buffer: BufferId,
        index_buffer: IndexSource,
        scene_data: &SceneData<V>,
    ) -> (draw: Option<PbrDraw>)
        ensures
            draw is Some <==> has_environment(scene_data.spec_skybox()),
            draw is Some ==> draw->0 == self.spec_draw(
                vertex_buffer,
                index_buffer,
                scene_data.spec_skybox()->0,
            ),
    {
        let skybox_obj = match scene_data.get_skybox() {
            Some(s) => s,
            None => return None,
        };
        let irradiance_map = match skybox_obj.get_ibl() {
            Some(c) => c,
            None => return None,
        };
        let brdf_lut = match skybox_obj.get_brdf() {
            Some(t) => t,
            None => return None,
        };
        match skybox_obj.get_prefilter() {
            Some(CubemapType::Cubemap(prefilter)) => Some(
                PbrDraw {
                    vertex_buffer,
                    index_buffer,
                    program: self.program,
                    parameters: MaterialKind::Pbr.draw_parameters(),
                    albedo_map: self.pbr_params.albedo,
                    metallic_map: self.pbr_params.metallic,
                    roughness_map: self.pbr_params.roughness,
                    ao_map: self.pbr_params.ao,
                    irradiance_map,
                    prefilter_map: prefilter,
                    brdf_lut,
                    skybox: skybox_obj.get_skybox().get_cubemap(),
                },
            ),
            _ => None,
        }
    }

    /// Two physically based materials never count as equal: their textures
    /// are not compared.
    pub fn equal(&self, _material: &PBR) -> (e: bool)
        ensures
            !e,
    {
        false
    }
}

} // verus!
