//! The render queue of one frame.
//!
//! Draw calls are gathered in buckets, one per kind of material. When the
//! frame is finished the buckets are emptied one after the other, the
//! skybox's first. Inside a bucket the order of submission is kept; the
//! order of the buckets among themselves is not.

use crate::gpu::BufferId;
use crate::lights::RawLights;
use crate::material::MaterialRef;
use crate::skybox::Skybox;
use std::collections::HashMap;
use vstd::arithmetic::div_mod::{lemma_add_mod_noop, lemma_small_mod};
use vstd::prelude::*;
use vstd::std_specs::hash::*;
use vstd::std_specs::iter::IteratorSpec;

verus! {

broadcast use vstd::std_specs::hash::group_hash_axioms;

/// Keeps what a frame leaves behind for diagnostics.
pub struct Renderer {
    polygons: u32,
}

/// Where a draw call takes its indices from.
#[derive(Clone, Copy, Debug, PartialEq, Eq, Structural)]
pub enum IndexSource {
    /// An index buffer of `elements` indices.
    IndexBuffer { buffer: BufferId, elements: usize },
    /// A buffer of `elements` draw commands.
    MultidrawArray { buffer: BufferId, elements: usize },
    /// A buffer of draw commands together with an index buffer.
    MultidrawElement { commands: BufferId, indices: BufferId },
    /// No indices: the vertices are drawn in the order they are stored.
    NoIndices,
}

/// One draw call waiting in the queue. It names buffers and a material that
/// the caller keeps alive until the frame is finished.
#[derive(Clone, Copy, Debug, PartialEq, Eq, Structural)]
pub struct RenderEntry {
    pub vertex_buffer: BufferId,
    pub index_buffer: IndexSource,
    pub material: MaterialRef,
}

/// What holds for the whole scene of one frame.
pub struct SceneData<V> {
    lights: RawLights<V>,
    skybox: Option<Skybox>,
}

/// A finished frame: the draw calls in the order in which they are issued,
/// and the scene they are issued in.
pub struct Frame<V> {
    pub draws: Vec<RenderEntry>,
    pub scene_data: SceneData<V>,
}

/// The queue of one frame, open for draw calls until it is finished.
pub struct RenderScene<V> {
    scene_data: SceneData<V>,
    entries: HashMap<u64, Vec<RenderEntry>>,
}

impl IndexSource {
    /// Number of elements that count towards the frame's polygons: those of
    /// index buffers and of draw command arrays.
    pub open spec fn spec_elements(self) -> nat {
        match self {
            IndexSource::IndexBuffer { elements, .. } => elements as nat,
            IndexSource::MultidrawArray { elements, .. } => elements as nat,
            _ => 0,
        }
    }

    /// Number of elements that count towards the frame's polygons.
    pub fn elements(&self) -> (n: usize)
        ensures
            n == self.spec_elements(),
    {
        match self {
            IndexSource::IndexBuffer { elements, .. } => *elements,
            IndexSource::MultidrawArray { elements, .. } => *elements,
            _ => 0,
        }
    }
}

impl RenderEntry {
    /// The bucket the entry belongs to.
    pub open spec fn spec_bucket(self) -> u64 {
        self.material.kind.spec_type_tag()
    }
}

/// The elements of all draw calls of a list, added up.
pub open spec fn element_total(draws: Seq<RenderEntry>) -> nat
    decreases draws.len(),
{
    if draws.len() == 0 {
        0
    } else {
        element_total(draws.drop_last()) + draws.last().index_buffer.spec_elements()
    }
}

/// The polygon count of a frame with `total` elements: every three elements
/// make a triangle. The count is kept in 32 bits, and so is the total
/// before it is divided.
pub open spec fn polygon_count(total: nat) -> int {
    (total as int % 0x1_0000_0000) / 3
}

/// The buckets named by `order`, emptied one after the other.
pub open spec fn concat_buckets(buckets: Map<u64, Seq<RenderEntry>>, order: Seq<u64>) -> Seq<
    RenderEntry,
>
    decreases order.len(),
{
    if order.len() == 0 {
        Seq::empty()
    } else {
        concat_buckets(buckets, order.drop_last()) + buckets[order.last()]
    }
}

/// True of an order in which every bucket is named once, the skybox's
/// bucket, if there is one, before all others.
pub open spec fn is_bucket_order(
    order: Seq<u64>,
    buckets: Map<u64, Seq<RenderEntry>>,
    skybox: Option<Skybox>,
) -> bool {
    &&& order.no_duplicates()
    &&& order.to_set() == buckets.dom()
    &&& match skybox {
        Some(s) => buckets.contains_key(s.spec_entry().spec_bucket()) ==> order.len() > 0
            && order[0] == s.spec_entry().spec_bucket(),
        None => true,
    }
}

/// True of the draw calls of a finished frame: the buckets emptied in some
/// order that puts the skybox's bucket first.
pub open spec fn is_frame(
    draws: Seq<RenderEntry>,
    buckets: Map<u64, Seq<RenderEntry>>,
    skybox: Option<Skybox>,
) -> bool {
    exists|order: Seq<u64>| #[trigger]
        is_bucket_order(order, buckets, skybox) && draws == concat_buckets(buckets, order)
}

/// The bucket of a kind, empty if nothing of the kind was submitted.
pub open spec fn bucket_of(buckets: Map<u64, Seq<RenderEntry>>, tag: u64) -> Seq<RenderEntry> {
    if buckets.contains_key(tag) {
        buckets[tag]
    } else {
        Seq::empty()
    }
}

impl Renderer {
    pub closed spec fn spec_polygons(&self) -> u32 {
        self.polygons
    }

    /// A renderer that has not drawn a frame yet.
    pub fn new() -> (r: Self)
        ensures
            r.spec_polygons() == 0,
    {
        Renderer { polygons: 0 }
    }

    /// Opens the queue of a new frame: no draw calls, no skybox, no lights.
    pub fn begin_scene<V>(&mut self) -> (scene: RenderScene<V>)
        ensures
            final(self).spec_polygons() == old(self).spec_polygons(),
            scene.spec_buckets() == Map::<u64, Seq<RenderEntry>>::empty(),
            buckets_wf(scene.spec_buckets()),
            scene.spec_scene_data().spec_skybox() is None,
            scene.spec_scene_data().spec_lights().spec_positions().len() == 0,
            scene.spec_scene_data().spec_lights().spec_colors().len() == 0,
            scene.spec_scene_data().spec_lights().wf(),
    {
        RenderScene::new()
    }

    /// Number of polygons of the frame that was finished last.
    pub fn get_polygons(&self) -> (n: u32)
        ensures
            n == self.spec_polygons(),
    {
        self.polygons
    }
}

impl<V> SceneData<V> {
    /// The skybox of the scene, if one is set.
    pub closed spec fn spec_skybox(&self) -> Option<Skybox> {
        self.skybox
    }

    /// The lights of the scene.
    pub closed spec fn spec_lights(&self) -> RawLights<V> {
        self.lights
    }

    /// A scene without skybox and without lights.
    pub fn new() -> (s: Self)
        ensures
            s.spec_skybox() is None,
            s.spec_lights().spec_positions().len() == 0,
            s.spec_lights().spec_colors().len() == 0,
            s.spec_lights().wf(),
    {
        SceneData { lights: RawLights::new(), skybox: None }
    }

    /// The lights of the scene.
    pub fn get_lights(&self) -> (l: &RawLights<V>)
        ensures
            *l == self.spec_lights(),
    {
        &self.lights
    }

    /// The skybox of the scene, if one is set.
    pub fn get_skybox(&self) -> (s: Option<Skybox>)
        ensures
            s == self.spec_skybox(),
    {
        self.skybox
    }
}

impl<V> RenderScene<V> {
    /// The buckets: for each kind of material that was submitted, its draw
    /// calls in the order of submission.
    pub closed spec fn spec_buckets(&self) -> Map<u64, Seq<RenderEntry>> {
        self.entries@.map_values(|v: Vec<RenderEntry>| v@)
    }

    /// What holds for the whole scene.
    pub closed spec fn spec_scene_data(&self) -> SceneData<V> {
        self.scene_data
    }

    /// What holds for the whole scene.
    pub fn get_scene_data(&self) -> (s: &SceneData<V>)
        ensures
            *s == self.spec_scene_data(),
    {
        &self.scene_data
    }

    /// Adds a light to the scene; the queue stays as it is.
    pub fn add_light(&mut self, position: V, color: V)
        ensures
            final(self).spec_buckets() == old(self).spec_buckets(),
            final(self).spec_scene_data().spec_skybox() == old(self).spec_scene_data().spec_skybox(),
            final(self).spec_scene_data().spec_lights().spec_positions() == old(
                self,
            ).spec_scene_data().spec_lights().spec_positions().push(position),
            final(self).spec_scene_data().spec_lights().spec_colors() == old(
                self,
            ).spec_scene_data().spec_lights().spec_colors().push(color),
            old(self).spec_scene_data().spec_lights().wf() ==> final(self).spec_scene_data()
                .spec_lights().wf(),
    {
        self.scene_data.lights.add_light(position, color);
    }

    /// An open queue without draw calls.
    pub fn new() -> (scene: Self)
        ensures
            scene.spec_buckets() == Map::<u64, Seq<RenderEntry>>::empty(),
            buckets_wf(scene.spec_buckets()),
            scene.spec_scene_data().spec_skybox() is None,
            scene.spec_scene_data().spec_lights().spec_positions().len() == 0,
            scene.spec_scene_data().spec_lights().spec_colors().len() == 0,
            scene.spec_scene_data().spec_lights().wf(),
    {
        let scene = RenderScene { scene_data: SceneData::new(), entries: HashMap::new() };
        assert(scene.spec_buckets() =~= Map::<u64, Seq<RenderEntry>>::empty());
        scene
    }

    fn push_entry(&mut self, entry: RenderEntry)
        ensures
            final(self).spec_buckets() == old(self).spec_buckets().insert(
                entry.spec_bucket(),
                bucket_of(old(self).spec_buckets(), entry.spec_bucket()).push(entry),
            ),
            final(self).spec_scene_data() == old(self).spec_scene_data(),
    {
        let tag = entry.material.kind.type_tag();
        let ghost before = self.entries@;
        let bucket = self.entries.entry(tag).or_insert(Vec::new());
        bucket.push(entry);
        proof {
            let old_bucket = bucket_of(old(self).spec_buckets(), tag);
            assert(self.entries@[tag]@ =~= old_bucket.push(entry));
            assert(self.spec_buckets() =~= old(self).spec_buckets().insert(
                tag,
                old_bucket.push(entry),
            ));
        }
    }

    /// Submits a draw call. It is put behind the draw calls of its kind
    /// that were submitted before; the buckets of other kinds stay as they
    /// are.
    pub fn publish(&mut self, vertex_buffer: BufferId, index_buffer: IndexSource, material: MaterialRef)
        ensures
            ({
                let entry = RenderEntry { vertex_buffer, index_buffer, material };
                final(self).spec_buckets() == old(self).spec_buckets().insert(
                    entry.spec_bucket(),
                    bucket_of(old(self).spec_buckets(), entry.spec_bucket()).push(entry),
                )
            }),
            final(self).spec_scene_data() == old(self).spec_scene_data(),
            buckets_wf(old(self).spec_buckets()) ==> buckets_wf(final(self).spec_buckets()),
    {
        proof {
            let entry = RenderEntry { vertex_buffer, index_buffer, material };
            if buckets_wf(old(self).spec_buckets()) {
                lemma_publish_keeps_buckets_wf(old(self).spec_buckets(), entry);
            }
        }
        self.push_entry(RenderEntry { vertex_buffer, index_buffer, material });
    }

    /// Sets or removes the skybox of the scene. A skybox that is set
    /// submits its own draw call at once.
    pub fn set_skybox(&mut self, skybox: Option<Skybox>)
        ensures
            final(self).spec_scene_data().spec_skybox() == skybox,
            final(self).spec_scene_data().spec_lights() == old(self).spec_scene_data().spec_lights(),
            match skybox {
                Some(s) => final(self).spec_buckets() == old(self).spec_buckets().insert(
                    s.spec_entry().spec_bucket(),
                    bucket_of(old(self).spec_buckets(), s.spec_entry().spec_bucket()).push(
                        s.spec_entry(),
                    ),
                ),
                None => final(self).spec_buckets() == old(self).spec_buckets(),
            },
            buckets_wf(old(self).spec_buckets()) ==> buckets_wf(final(self).spec_buckets()),
    {
        proof {
            if buckets_wf(old(self).spec_buckets()) && skybox is Some {
                lemma_publish_keeps_buckets_wf(old(self).spec_buckets(), skybox->0.spec_entry());
            }
        }
        self.scene_data.skybox = skybox;
        match skybox {
            Some(s) => {
                self.push_entry(s.entry());
            },
            None => {},
        }
    }
}

/// True when every draw call waits in the bucket of its own kind. This holds
/// of the buckets of every queue that was filled by `publish` and
/// `set_skybox`.
pub open spec fn buckets_wf(buckets: Map<u64, Seq<RenderEntry>>) -> bool {
    forall|k: u64, i: int|
        buckets.contains_key(k) && 0 <= i < buckets[k].len() ==> (#[trigger] buckets[k][i]).spec_bucket()
            == k
}

/// Number of draw calls that are issued before bucket `position` of the
/// order begins.
pub open spec fn bucket_start(buckets: Map<u64, Seq<RenderEntry>>, order: Seq<u64>, position: int) -> int {
    concat_buckets(buckets, order.take(position)).len() as int
}

impl<V> RenderScene<V> {
    /// Finishes the frame: hands out every draw call that was submitted,
    /// bucket by bucket, together with the scene, and records the frame's
    /// polygon count.
    ///
    /// The bucket of the skybox comes first, so that the skybox is in the
    /// target before anything is depth-tested against it. The other buckets
    /// follow in no particular order. Inside a bucket the draw calls keep
    /// the order in which they were submitted.
    pub fn finish(self, renderer: &mut Renderer) -> (frame: Frame<V>)
        ensures
            frame.scene_data == self.spec_scene_data(),
            is_frame(frame.draws@, self.spec_buckets(), self.spec_scene_data().spec_skybox()),
            match self.spec_scene_data().spec_skybox() {
                Some(s) => {
                    let first = bucket_of(self.spec_buckets(), s.spec_entry().spec_bucket());
                    first.len() <= frame.draws@.len() && frame.draws@.take(first.len() as int)
                        == first
                },
                None => true,
            },
            final(renderer).spec_polygons() == polygon_count(element_total(frame.draws@)),
            element_total(frame.draws@) < 0x1_0000_0000 ==> final(renderer).spec_polygons()
                == element_total(frame.draws@) / 3,
    {
        let ghost buckets = self.spec_buckets();
        let ghost skybox = self.spec_scene_data().spec_skybox();
        let RenderScene { scene_data, mut entries } = self;
        assert(buckets.dom() =~= entries@.dom());
        assert(forall|k: u64| entries@.contains_key(k) ==> buckets[k] == (#[trigger] entries@[k])@);
        let mut draws: Vec<RenderEntry> = Vec::new();
        let ghost mut order: Seq<u64> = Seq::empty();
        match scene_data.get_skybox() {
            Some(s) => {
                let tag = s.entry().material.kind.type_tag();
                match entries.remove(&tag) {
                    Some(mut bucket) => {
                        draws.append(&mut bucket);
                        proof {
                            order = seq![tag];
                            assert(order.drop_last() =~= Seq::<u64>::empty());
                            assert(concat_buckets(buckets, order.drop_last()) =~= Seq::<
                                RenderEntry,
                            >::empty());
                            assert(draws@ =~= concat_buckets(buckets, order));
                        }
                    },
                    None => {},
                }
            },
            None => {},
        }
        let ghost head = order;
        let ghost rest = entries@.dom();
        proof {
            assert(head.to_set().union(rest) =~= buckets.dom()) by {
                if head.len() == 1 {
                    assert(head.to_set() =~= set![head[0]]);
                } else {
                    assert(head.to_set() =~= Set::<u64>::empty());
                }
            }
            assert(forall|k: u64| rest.contains(k) ==> buckets[k] == (#[trigger] entries@[k])@);
        }
        let mut keys: Vec<u64> = Vec::new();
        for k in it: entries.keys()
            invariant
                keys@.len() == it.index(),
                forall|j: int| 0 <= j < keys@.len() ==> keys@[j] == *it.seq()[j],
        {
            keys.push(*k);
        }
        proof {
            assert(keys@ =~= spec_keys_iter(&entries).remaining().unref());
            assert(keys@.no_duplicates());
            assert(keys@.to_set() =~= entries@.dom());
            assert forall|j: int| 0 <= j < keys@.len() implies entries@.contains_key(
                #[trigger] keys@[j],
            ) by {
                assert(keys@.to_set().contains(keys@[j]));
            }
            assert(keys@.to_set() == rest);
        }
        let mut i: usize = 0;
        while i < keys.len()
            invariant
                i <= keys@.len(),
                keys@.no_duplicates(),
                head.len() <= 1,
                forall|j: int| 0 <= j < keys@.len() && 0 < head.len() ==> keys@[j] != head[0],
                keys@.to_set() == rest,
                head.to_set().union(rest) == buckets.dom(),
                skybox == scene_data.spec_skybox(),
                match skybox {
                    Some(s) => buckets.contains_key(s.spec_entry().spec_bucket()) ==> head
                        == seq![s.spec_entry().spec_bucket()],
                    None => true,
                },
                order == head + keys@.take(i as int),
                draws@ == concat_buckets(buckets, order),
                forall|j: int|
                    i <= j < keys@.len() ==> entries@.contains_key(#[trigger] keys@[j])
                        && entries@[keys@[j]]@ == buckets[keys@[j]],
            decreases keys@.len() - i,
        {
            let key = keys[i];
            let ghost before = entries@;
            match entries.remove(&key) {
                Some(mut bucket) => {
                    draws.append(&mut bucket);
                },
                None => {},
            }
            proof {
                let next = head + keys@.take(i + 1);
                assert(next.drop_last() =~= order);
                assert(next.last() == key);
                assert forall|j: int| i + 1 <= j < keys@.len() implies entries@.contains_key(
                    #[trigger] keys@[j],
                ) && entries@[keys@[j]]@ == buckets[keys@[j]] by {
                    assert(keys@[j] != keys@[i as int]);
                    assert(before.contains_key(keys@[j]));
                }
                order = next;
            }
            i += 1;
        }
        proof {
            assert(keys@.take(keys@.len() as int) =~= keys@);
            assert(order =~= head + keys@);
            lemma_order_covers(order, head, keys@);
            assert(is_bucket_order(order, buckets, skybox));
            match skybox {
                Some(s) => {
                    let tag = s.spec_entry().spec_bucket();
                    if buckets.contains_key(tag) {
                        lemma_bucket_is_drawn_in_one_run(buckets, order, 0);
                        assert(order.take(0) =~= Seq::<u64>::empty());
                    } else {
                        assert(draws@.take(0) =~= Seq::<RenderEntry>::empty());
                    }
                },
                None => {},
            }
        }
        let mut counted: usize = 0;
        let mut total: u32 = 0;
        while counted < draws.len()
            invariant
                counted <= draws@.len(),
                total == element_total(draws@.take(counted as int)) % 0x1_0000_0000,
            decreases draws@.len() - counted,
        {
            let elements = draws[counted].index_buffer.elements();
            proof {
                let sofar = element_total(draws@.take(counted as int)) as int;
                assert(draws@.take(counted + 1).drop_last() =~= draws@.take(counted as int));
                assert(element_total(draws@.take(counted + 1)) == sofar + elements);
                lemma_add_mod_noop(sofar, elements as int, 0x1_0000_0000);
            }
            let low: u64 = (elements as u64) % 0x1_0000_0000;
            total = ((total as u64 + low) % 0x1_0000_0000) as u32;
            counted += 1;
        }
        proof {
            assert(draws@.take(draws@.len() as int) =~= draws@);
            if element_total(draws@) < 0x1_0000_0000 {
                lemma_small_mod(element_total(draws@), 0x1_0000_0000);
            }
        }
        renderer.polygons = total / 3;
        Frame { draws, scene_data }
    }
}

proof fn lemma_order_covers(order: Seq<u64>, head: Seq<u64>, keys: Seq<u64>)
    requires
        order == head + keys,
        keys.no_duplicates(),
        head.len() <= 1,
        forall|j: int| 0 <= j < keys.len() && 0 < head.len() ==> keys[j] != head[0],
    ensures
        order.no_duplicates(),
        order.to_set() == head.to_set().union(keys.to_set()),
{
    assert forall|a: int, b: int| 0 <= a < order.len() && 0 <= b < order.len() && a != b implies order[a]
        != order[b] by {
        if head.len() == 1 {
            if a == 0 {
                assert(order[b] == keys[b - 1]);
            } else if b == 0 {
                assert(order[a] == keys[a - 1]);
            } else {
                assert(order[a] == keys[a - 1] && order[b] == keys[b - 1]);
            }
        } else {
            assert(order[a] == keys[a] && order[b] == keys[b]);
        }
    }
    assert forall|k: u64| order.to_set().contains(k) <==> head.to_set().union(
        keys.to_set(),
    ).contains(k) by {
        if order.to_set().contains(k) {
            let a = choose|a: int| 0 <= a < order.len() && order[a] == k;
            if a < head.len() {
                assert(head[a] == k);
                assert(head.to_set().contains(k));
            } else {
                assert(keys[a - head.len()] == k);
                assert(keys.to_set().contains(k));
            }
        }
        if head.to_set().contains(k) {
            let a = choose|a: int| 0 <= a < head.len() && head[a] == k;
            assert(order[a] == k);
        }
        if keys.to_set().contains(k) {
            let a = choose|a: int| 0 <= a < keys.len() && keys[a] == k;
            assert(order[a + head.len()] == k);
        }
    }
    assert(order.to_set() =~= head.to_set().union(keys.to_set()));
}

/// The draw calls of a bucket are issued in one run, in the order in which
/// they were submitted: they start where the buckets before them end and
/// nothing comes between them.
pub proof fn lemma_bucket_is_drawn_in_one_run(
    buckets: Map<u64, Seq<RenderEntry>>,
    order: Seq<u64>,
    position: int,
)
    requires
        0 <= position < order.len(),
    ensures
        ({
            let draws = concat_buckets(buckets, order);
            let start = bucket_start(buckets, order, position);
            let bucket = buckets[order[position]];
            &&& 0 <= start
            &&& start + bucket.len() <= draws.len()
            &&& draws.subrange(start, start + bucket.len()) == bucket
        }),
    decreases order.len(),
{
    let draws = concat_buckets(buckets, order);
    let start = bucket_start(buckets, order, position);
    let bucket = buckets[order[position]];
    let front = order.drop_last();
    if position == order.len() - 1 {
        assert(order.take(position) =~= front);
        assert(draws.subrange(start, start + bucket.len()) =~= bucket);
    } else {
        lemma_bucket_is_drawn_in_one_run(buckets, front, position);
        assert(front.take(position) =~= order.take(position));
        assert(front[position] == order[position]);
        let inner = concat_buckets(buckets, front);
        assert(draws.subrange(start, start + bucket.len()) =~= inner.subrange(
            start,
            start + bucket.len(),
        ));
    }
}

/// Submitting a draw call keeps every draw call in the bucket of its kind.
pub proof fn lemma_publish_keeps_buckets_wf(buckets: Map<u64, Seq<RenderEntry>>, entry: RenderEntry)
    requires
        buckets_wf(buckets),
    ensures
        buckets_wf(
            buckets.insert(
                entry.spec_bucket(),
                bucket_of(buckets, entry.spec_bucket()).push(entry),
            ),
        ),
{
    let tag = entry.spec_bucket();
    let after = buckets.insert(tag, bucket_of(buckets, tag).push(entry));
    assert forall|k: u64, i: int| after.contains_key(k) && 0 <= i < after[k].len() implies (
    #[trigger] after[k][i]).spec_bucket() == k by {
        if k == tag {
            if i < bucket_of(buckets, tag).len() {
                assert(after[k][i] == buckets[k][i]);
            }
        } else {
            assert(after[k][i] == buckets[k][i]);
        }
    }
}

/// Every draw call of a frame comes out of one of the buckets: the position
/// of that bucket in the order is returned.
pub proof fn lemma_draw_belongs_to_a_bucket(
    buckets: Map<u64, Seq<RenderEntry>>,
    order: Seq<u64>,
    i: int,
) -> (position: int)
    requires
        0 <= i < concat_buckets(buckets, order).len(),
    ensures
        0 <= position < order.len(),
        bucket_start(buckets, order, position) <= i < bucket_start(buckets, order, position)
            + buckets[order[position]].len(),
        concat_buckets(buckets, order)[i] == buckets[order[position]][i - bucket_start(
            buckets,
            order,
            position,
        )],
    decreases order.len(),
{
    let front = order.drop_last();
    let inner = concat_buckets(buckets, front);
    if i < inner.len() {
        let position = lemma_draw_belongs_to_a_bucket(buckets, front, i);
        assert(front.take(position) =~= order.take(position));
        position
    } else {
        assert(order.take(order.len() - 1) =~= front);
        order.len() - 1
    }
}

/// Draw calls of one kind are drawn together. In a finished frame the
/// bucket of a kind is one run of draw calls in the order of submission, and
/// no draw call of that kind lies outside the run. Where the runs of two
/// kinds lie relative to each other is not promised.
pub proof fn lemma_same_kind_is_drawn_together(
    draws: Seq<RenderEntry>,
    buckets: Map<u64, Seq<RenderEntry>>,
    skybox: Option<Skybox>,
    kind: u64,
)
    requires
        is_frame(draws, buckets, skybox),
        buckets_wf(buckets),
        buckets.contains_key(kind),
    ensures
        exists|start: int|
            {
                &&& 0 <= start
                &&& start + buckets[kind].len() <= draws.len()
                &&& #[trigger] draws.subrange(start, start + buckets[kind].len()) == buckets[kind]
                &&& forall|i: int|
                    0 <= i < draws.len() && (#[trigger] draws[i]).spec_bucket() == kind ==> start
                        <= i < start + buckets[kind].len()
            },
{
    let order = choose|order: Seq<u64>| #[trigger]
        is_bucket_order(order, buckets, skybox) && draws == concat_buckets(buckets, order);
    assert(order.to_set().contains(kind));
    let position = choose|p: int| 0 <= p < order.len() && order[p] == kind;
    let start = bucket_start(buckets, order, position);
    lemma_bucket_is_drawn_in_one_run(buckets, order, position);
    assert forall|i: int| 0 <= i < draws.len() && (#[trigger] draws[i]).spec_bucket()
        == kind implies start <= i < start + buckets[kind].len() by {
        let q = lemma_draw_belongs_to_a_bucket(buckets, order, i);
        assert(order.to_set().contains(order[q]));
        assert(buckets.contains_key(order[q]));
        let offset = i - bucket_start(buckets, order, q);
        assert(buckets[order[q]][offset].spec_bucket() == order[q]);
        assert(order[q] == order[position]);
    }
    assert(draws.subrange(start, start + buckets[kind].len()) == buckets[kind]);
}

/// Every draw call is issued exactly once: a draw call occurs in a finished
/// frame as often as it was submitted, which is as often as it occurs in
/// the bucket of its kind.
pub proof fn lemma_every_draw_is_issued_once(
    draws: Seq<RenderEntry>,
    buckets: Map<u64, Seq<RenderEntry>>,
    skybox: Option<Skybox>,
    entry: RenderEntry,
)
    requires
        is_frame(draws, buckets, skybox),
        buckets_wf(buckets),
    ensures
        draws.to_multiset().count(entry) == bucket_of(
            buckets,
            entry.spec_bucket(),
        ).to_multiset().count(entry),
{
    broadcast use vstd::seq_lib::group_to_multiset_ensures;

    let kind = entry.spec_bucket();
    if buckets.contains_key(kind) {
        lemma_same_kind_is_drawn_together(draws, buckets, skybox, kind);
        let bucket = buckets[kind];
        let start = choose|start: int|
            {
                &&& 0 <= start
                &&& start + bucket.len() <= draws.len()
                &&& #[trigger] draws.subrange(start, start + bucket.len()) == bucket
                &&& forall|i: int|
                    0 <= i < draws.len() && (#[trigger] draws[i]).spec_bucket() == kind ==> start
                        <= i < start + bucket.len()
            };
        let before = draws.subrange(0, start);
        let after = draws.subrange(start + bucket.len(), draws.len() as int);
        assert(draws =~= before + bucket + after);
        vstd::seq_lib::lemma_multiset_commutative(before + bucket, after);
        vstd::seq_lib::lemma_multiset_commutative(before, bucket);
        assert(!before.contains(entry)) by {
            if before.contains(entry) {
                let i = choose|i: int| 0 <= i < before.len() && before[i] == entry;
                assert(draws[i] == entry);
            }
        }
        assert(!after.contains(entry)) by {
            if after.contains(entry) {
                let i = choose|i: int| 0 <= i < after.len() && after[i] == entry;
                assert(draws[start + bucket.len() + i] == entry);
            }
        }
        assert(before.to_multiset().count(entry) == 0);
        assert(after.to_multiset().count(entry) == 0);
    } else {
        let order = choose|order: Seq<u64>| #[trigger]
            is_bucket_order(order, buckets, skybox) && draws == concat_buckets(buckets, order);
        assert(!draws.contains(entry)) by {
            if draws.contains(entry) {
                let i = choose|i: int| 0 <= i < draws.len() && draws[i] == entry;
                let q = lemma_draw_belongs_to_a_bucket(buckets, order, i);
                assert(order.to_set().contains(order[q]));
                let offset = i - bucket_start(buckets, order, q);
                assert(buckets[order[q]][offset].spec_bucket() == order[q]);
            }
        }
        assert(draws.to_multiset().count(entry) == 0);
        assert(Seq::<RenderEntry>::empty().to_multiset().count(entry) == 0) by {
            assert(!Seq::<RenderEntry>::empty().contains(entry));
        }
    }
}

} // verus!
