//! The environment of a scene: the cubemap that is seen and the maps that
//! light the scene with it.

use crate::cubemap_loader::CubemapType;
use crate::gpu::{BufferId, TextureId};
use crate::material::skybox::SkyboxMat;
use crate::renderer::{bucket_of, IndexSource, RenderEntry, RenderScene};
use vstd::prelude::*;

verus! {

/// The skybox with what was baked from it. The three baked maps are set
/// one by one and may be missing while a scene is put together.
///
/// A scene has one skybox, so any two skyboxes compare as equal with `==`,
/// whatever they hold.
#[derive(Clone, Copy, Debug, Eq)]
pub struct Skybox {
    skybox: SkyboxMat,
    ibl: Option<CubemapType>,
    prefilter: Option<CubemapType>,
    brdf: Option<TextureId>,
    vertex_buffer: BufferId,
}

impl Skybox {
    pub closed spec fn spec_skybox(&self) -> SkyboxMat {
        self.skybox
    }

    pub closed spec fn spec_ibl(&self) -> Option<CubemapType> {
        self.ibl
    }

    pub closed spec fn spec_prefilter(&self) -> Option<CubemapType> {
        self.prefilter
    }

    pub closed spec fn spec_brdf(&self) -> Option<TextureId> {
        self.brdf
    }

    pub closed spec fn spec_vertex_buffer(&self) -> BufferId {
        self.vertex_buffer
    }

    /// The draw call of the skybox itself: its cube, drawn without indices
    /// with the skybox material.
    pub open spec fn spec_entry(&self) -> RenderEntry {
        RenderEntry {
            vertex_buffer: self.spec_vertex_buffer(),
            index_buffer: IndexSource::NoIndices,
            material: self.spec_skybox().spec_material_ref(),
        }
    }

    /// A skybox with none of the baked maps. `vertex_buffer` holds the cube
    /// that the skybox is drawn on.
    pub fn new(vertex_buffer: BufferId, skybox: SkyboxMat) -> (s: Self)
        ensures
            s.spec_skybox() == skybox,
            s.spec_vertex_buffer() == vertex_buffer,
            s.spec_ibl() is None,
            s.spec_prefilter() is None,
            s.spec_brdf() is None,
    {
        Skybox { skybox, ibl: None, prefilter: None, brdf: None, vertex_buffer }
    }

    /// The draw call of the skybox itself.
    pub fn entry(&self) -> (e: RenderEntry)
        ensures
            e == self.spec_entry(),
    {
        RenderEntry {
            vertex_buffer: self.vertex_buffer,
            index_buffer: IndexSource::NoIndices,
            material: self.skybox.material_ref(),
        }
    }

    /// Submits the draw call of the skybox itself.
    pub fn render<V>(&self, scene: &mut RenderScene<V>)
        ensures
            final(scene).spec_buckets() == old(scene).spec_buckets().insert(
                self.spec_entry().spec_bucket(),
                bucket_of(old(scene).spec_buckets(), self.spec_entry().spec_bucket()).push(
                    self.spec_entry(),
                ),
            ),
            final(scene).spec_scene_data() == old(scene).spec_scene_data(),
    {
        scene.publish(self.vertex_buffer, IndexSource::NoIndices, self.skybox.material_ref());
    }

    pub fn get_skybox(&self) -> (m: SkyboxMat)
        ensures
            m == self.spec_skybox(),
    {
        self.skybox
    }

    /// Sets or removes the irradiance map; nothing else changes.
    pub fn set_ibl(&mut self, cubemap: Option<CubemapType>)
        ensures
            final(self).spec_ibl() == cubemap,
            final(self).spec_prefilter() == old(self).spec_prefilter(),
            final(self).spec_brdf() == old(self).spec_brdf(),
            final(self).spec_skybox() == old(self).spec_skybox(),
            final(self).spec_vertex_buffer() == old(self).spec_vertex_buffer(),
    {
        self.ibl = cubemap;
    }

    pub fn get_ibl(&self) -> (c: Option<CubemapType>)
        ensures
            c == self.spec_ibl(),
    {
        self.ibl
    }

    /// Sets or removes the prefiltered map; nothing else changes.
    pub fn set_prefilter(&mut self, cubemap: Option<CubemapType>)
        ensures
            final(self).spec_prefilter() == cubemap,
            final(self).spec_ibl() == old(self).spec_ibl(),
            final(self).spec_brdf() == old(self).spec_brdf(),
            final(self).spec_skybox() == old(self).spec_skybox(),
            final(self).spec_vertex_buffer() == old(self).spec_vertex_buffer(),
    {
        self.prefilter = cubemap;
    }

    pub fn get_prefilter(&self) -> (c: Option<CubemapType>)
        ensures
            c == self.spec_prefilter(),
    {
        self.prefilter
    }

    /// Sets or removes the lookup table; nothing else changes.
    pub fn set_brdf(&mut self, texture: Option<TextureId>)
        ensures
            final(self).spec_brdf() == texture,
            final(self).spec_ibl() == old(self).spec_ibl(),
            final(self).spec_prefilter() == old(self).spec_prefilter(),
            final(self).spec_skybox() == old(self).spec_skybox(),
            final(self).spec_vertex_buffer() == old(self).spec_vertex_buffer(),
    {
        self.brdf = texture;
    }

    pub fn get_brdf(&self) -> (t: Option<TextureId>)
        ensures
            t == self.spec_brdf(),
    {
        self.brdf
    }
}

impl PartialEq for Skybox {
    /// Any two skyboxes count as equal.
    fn eq(&self, other: &Self) -> (e: bool) {
        true
    }
}

impl vstd::std_specs::cmp::PartialEqSpecImpl for Skybox {
    open spec fn obeys_eq_spec() -> bool {
        true
    }

    open spec fn eq_spec(&self, other: &Self) -> bool {
        true
    }
}

} // verus!
