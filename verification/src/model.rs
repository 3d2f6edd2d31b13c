//! Models: meshes cut into segments, each with its own buffers and material.

use crate::gpu::BufferId;
use crate::material::MaterialRef;
use crate::renderer::{
    bucket_of, buckets_wf, lemma_publish_keeps_buckets_wf, IndexSource, RenderEntry, RenderScene,
};
use vstd::prelude::*;

verus! {

/// One segment of a model: a vertex buffer, an index buffer of `elements`
/// indices that make up triangles, and the material that draws them.
#[derive(Clone, Copy, Debug, PartialEq, Eq, Structural)]
pub struct ModelSegment {
    pub vertex_buffer: BufferId,
    pub index_buffer: BufferId,
    pub elements: usize,
    pub material: MaterialRef,
}

/// A model: its segments in the order in which they were imported.
pub struct Model {
    segments: Vec<ModelSegment>,
}

/// What an importer knows of a material's look, by the name of the property
/// that tells it.
#[derive(Clone, Copy, Debug, PartialEq, Eq, Structural)]
pub enum MaterialProperty {
    /// `$clr.base`: base colour, as three values.
    BaseColor,
    /// `$mat.roughnessFactor`: roughness, as one value.
    RoughnessFactor,
    /// `$mat.metallicFactor`: metallic, as one value.
    MetallicFactor,
    /// `$clr.diffuse`: diffuse colour, as three values; it is taken as
    /// albedo.
    DiffuseColor,
    /// `$mat.shininess`: shininess, as one value; roughness is derived
    /// from it.
    Shininess,
    /// Any other property; it changes nothing.
    Other,
}

/// What a property does to the parameters of a physically based material.
#[derive(Clone, Copy, Debug)]
pub enum PropertyUpdate<S> {
    /// Albedo becomes this colour.
    Albedo([S; 3]),
    /// Roughness becomes this value.
    Roughness(S),
    /// Metallic becomes this value.
    Metallic(S),
    /// Roughness becomes what this shininess stands for.
    RoughnessOfShininess(S),
    /// Nothing changes.
    Unchanged,
}

impl ModelSegment {
    /// The draw call of the segment.
    pub open spec fn spec_entry(self) -> RenderEntry {
        RenderEntry {
            vertex_buffer: self.vertex_buffer,
            index_buffer: IndexSource::IndexBuffer {
                buffer: self.index_buffer,
                elements: self.elements,
            },
            material: self.material,
        }
    }

    /// A segment of the given buffers and material.
    pub fn new(vertex_buffer: BufferId, index_buffer: BufferId, elements: usize, material: MaterialRef) -> (s:
        Self)
        ensures
            s == (ModelSegment { vertex_buffer, index_buffer, elements, material }),
    {
        ModelSegment { vertex_buffer, index_buffer, elements, material }
    }

    /// Submits the segment's draw call.
    pub fn render<V>(&self, scene: &mut RenderScene<V>)
        ensures
            final(scene).spec_buckets() == old(scene).spec_buckets().insert(
                self.spec_entry().spec_bucket(),
                bucket_of(old(scene).spec_buckets(), self.spec_entry().spec_bucket()).push(
                    self.spec_entry(),
                ),
            ),
            final(scene).spec_scene_data() == old(scene).spec_scene_data(),
    {
        scene.publish(
            self.vertex_buffer,
            IndexSource::IndexBuffer { buffer: self.index_buffer, elements: self.elements },
            self.material,
        );
    }
}

/// The buckets after the draw calls of `segments` were submitted one after
/// the other.
pub open spec fn published(buckets: Map<u64, Seq<RenderEntry>>, segments: Seq<ModelSegment>) -> Map<
    u64,
    Seq<RenderEntry>,
>
    decreases segments.len(),
{
    if segments.len() == 0 {
        buckets
    } else {
        let before = published(buckets, segments.drop_last());
        let entry = segments.last().spec_entry();
        before.insert(entry.spec_bucket(), bucket_of(before, entry.spec_bucket()).push(entry))
    }
}

impl Model {
    /// The segments, in the order in which they are drawn.
    pub closed spec fn spec_segments(&self) -> Seq<ModelSegment> {
        self.segments@
    }

    /// A model of the given segments.
    pub fn new(segments: Vec<ModelSegment>) -> (m: Self)
        ensures
            m.spec_segments() == segments@,
    {
        Model { segments }
    }

    /// A model of one segment.
    pub fn load_from_mem(
        vertex_buffer: BufferId,
        index_buffer: BufferId,
        elements: usize,
        material: MaterialRef,
    ) -> (m: Self)
        ensures
            m.spec_segments() == seq![
                ModelSegment { vertex_buffer, index_buffer, elements, material },
            ],
    {
        let mut segments: Vec<ModelSegment> = Vec::new();
        segments.push(ModelSegment::new(vertex_buffer, index_buffer, elements, material));
        assert(segments@ =~= seq![ModelSegment { vertex_buffer, index_buffer, elements, material }]);
        Model { segments }
    }

    pub fn get_segments(&self) -> (s: &Vec<ModelSegment>)
        ensures
            s@ == self.spec_segments(),
    {
        &self.segments
    }

    /// Replaces the material of a segment; the other segments stay.
    pub fn set_material(&mut self, index: usize, material: MaterialRef)
        requires
            index < old(self).spec_segments().len(),
        ensures
            final(self).spec_segments() == old(self).spec_segments().update(
                index as int,
                ModelSegment { material, ..old(self).spec_segments()[index as int] },
            ),
    {
        let segment = self.segments[index];
        self.segments.set(index, ModelSegment { material, ..segment });
    }

    /// Submits the draw calls of all segments, in the order of the segments.
    pub fn render<V>(&self, scene: &mut RenderScene<V>)
        ensures
            final(scene).spec_buckets() == published(old(scene).spec_buckets(), self.spec_segments()),
            final(scene).spec_scene_data() == old(scene).spec_scene_data(),
    {
        let mut i: usize = 0;
        while i < self.segments.len()
            invariant
                i <= self.segments@.len(),
                scene.spec_buckets() == published(
                    old(scene).spec_buckets(),
                    self.segments@.take(i as int),
                ),
                scene.spec_scene_data() == old(scene).spec_scene_data(),
            decreases self.segments@.len() - i,
        {
            let segment = self.segments[i];
            proof {
                assert(self.segments@.take(i + 1).drop_last() =~= self.segments@.take(i as int));
            }
            scene.publish(
                segment.vertex_buffer,
                IndexSource::IndexBuffer { buffer: segment.index_buffer, elements: segment.elements },
                segment.material,
            );
            i += 1;
        }
        proof {
            assert(self.segments@.take(self.segments@.len() as int) =~= self.segments@);
        }
    }
}

/// Submitting a model keeps every draw call in the bucket of its kind.
pub proof fn lemma_model_keeps_buckets_wf(buckets: Map<u64, Seq<RenderEntry>>, segments: Seq<ModelSegment>)
    requires
        buckets_wf(buckets),
    ensures
        buckets_wf(published(buckets, segments)),
    decreases segments.len(),
{
    if segments.len() > 0 {
        lemma_model_keeps_buckets_wf(buckets, segments.drop_last());
        lemma_publish_keeps_buckets_wf(
            published(buckets, segments.drop_last()),
            segments.last().spec_entry(),
        );
    }
}

} // verus!
