//! Resource identity, per-kind resource stores, and the eager/deferred
//! creation protocol.
//!
//! A [`SimpleResourceStore`] holds one frame's resources of a single kind:
//! the realized ones (`current`), the ones whose construction is deferred
//! until device access is available (`queued`), the ones carried over from
//! the previous frame under a stable label (`last_frame`), and the marks that
//! say which current resources should survive the coming frame boundary
//! (`to_save`).

use vstd::prelude::*;

use crate::keyed::{distinct_keys, lookup};
use crate::keyed::{
    lemma_lookup_at, lemma_lookup_concat, lemma_lookup_last_match, lemma_lookup_none_of_absent,
    lemma_lookup_push, lemma_lookup_some_of_present, lemma_push_distinct,
};
use crate::graph::RenderGraph;

verus! {

/// A stable, caller-defined identity under which a resource may be retained
/// across a frame boundary. Slot indices are not stable across frames, so
/// retention is keyed by these labels instead.
#[derive(Copy, Clone, PartialEq, Eq, Hash, Structural, Debug)]
pub struct InternedRenderLabel {
    pub value: u32,
}

/// A resource kind managed by the render graph: which descriptor describes
/// it, which data realizes it, and where its store lives inside the graph.
pub trait RenderResource: Sized + 'static {
    /// The declarative description of a resource of this kind (size, format,
    /// usage), kept for later lookups and validation.
    type Descriptor;

    /// The realized GPU-side object, or a token referring to it.
    type Data;

    /// The store of this kind inside a graph.
    spec fn spec_store(graph: RenderGraph) -> SimpleResourceStore<Self>;

    /// The graph with this kind's store replaced; every other part of the
    /// graph is left alone.
    spec fn with_store(graph: RenderGraph, store: SimpleResourceStore<Self>) -> RenderGraph;

    /// The resource a node sees for a given realized datum, if any.
    spec fn spec_from_data(data: Self::Data) -> Option<Self>;

    /// `spec_store` and `with_store` are a lens onto the graph: reading after
    /// writing yields the written store, and writing touches nothing else.
    proof fn lemma_store_lens(graph: RenderGraph, store: SimpleResourceStore<Self>)
        ensures
            Self::spec_store(Self::with_store(graph, store)) == store,
            Self::with_store(graph, store).next_id == graph.next_id,
            Self::with_store(graph, store).phase == graph.phase,
            Self::with_store(graph, store).bind_groups == graph.bind_groups,
    ;

    /// Writing a store twice keeps only the second write.
    proof fn lemma_with_store_twice(
        graph: RenderGraph,
        s1: SimpleResourceStore<Self>,
        s2: SimpleResourceStore<Self>,
    )
        ensures
            Self::with_store(Self::with_store(graph, s1), s2) == Self::with_store(graph, s2),
    ;

    /// Which store `spec_store` reads depends only on the graph's stores,
    /// never on its allocator or phase.
    proof fn lemma_spec_store_of_stores(g1: RenderGraph, g2: RenderGraph)
        requires
            g1.textures == g2.textures,
            g1.buffers == g2.buffers,
        ensures
            Self::spec_store(g1) == Self::spec_store(g2),
    ;

    fn get_store(graph: &RenderGraph) -> (store: &SimpleResourceStore<Self>)
        ensures
            *store == Self::spec_store(*graph),
    ;

    fn get_store_mut(graph: &mut RenderGraph) -> (store: &mut SimpleResourceStore<Self>)
        ensures
            *store == Self::spec_store(*old(graph)),
            *final(graph) == Self::with_store(*old(graph), *final(store)),
    ;

    fn from_data(data: &Self::Data) -> (res: Option<&Self>)
        ensures
            match res {
                Some(r) => Self::spec_from_data(*data) == Some(*r),
                None => Self::spec_from_data(*data) is None,
            },
    ;
}

/// A resource kind that nodes may declare as a write target.
pub trait WriteRenderResource: RenderResource {

}

/// A resource kind that may be carried across a frame boundary under a
/// retention label.
pub trait RetainedRenderResource: WriteRenderResource {

}

/// A stored resource: its declarative description, if one was given, and the
/// realized data.
pub struct RenderResourceMeta<R: RenderResource> {
    pub descriptor: Option<R::Descriptor>,
    pub resource: R::Data,
}

/// A deferred construction request. It records the descriptor the realized
/// resource will carry; the data itself is produced by the device callback
/// when the store's queued resources are realized.
pub struct DeferredResourceInit<R: RenderResource> {
    pub descriptor: Option<R::Descriptor>,
}

/// How a newly declared resource comes into being: immediately, with its
/// data in hand, or deferred until device access is available.
pub enum RenderResourceInit<R: RenderResource> {
    Eager(RenderResourceMeta<R>),
    Deferred(DeferredResourceInit<R>),
}

/// Anything that can be turned into a resource declaration of some kind.
pub trait IntoRenderResource {
    type Resource: RenderResource;

    /// The declaration this value stands for.
    spec fn spec_into(self) -> RenderResourceInit<Self::Resource>;

    fn into_render_resource(self) -> (init: RenderResourceInit<Self::Resource>)
        ensures
            init == self.spec_into(),
    ;
}

impl<R: RenderResource> IntoRenderResource for RenderResourceInit<R> {
    type Resource = R;

    open spec fn spec_into(self) -> RenderResourceInit<R> {
        self
    }

    fn into_render_resource(self) -> (init: RenderResourceInit<R>) {
        self
    }
}

impl<R: RenderResource> IntoRenderResource for RenderResourceMeta<R> {
    type Resource = R;

    open spec fn spec_into(self) -> RenderResourceInit<R> {
        RenderResourceInit::Eager(self)
    }

    fn into_render_resource(self) -> (init: RenderResourceInit<R>) {
        RenderResourceInit::Eager(self)
    }
}

impl<R: RenderResource> IntoRenderResource for DeferredResourceInit<R> {
    type Resource = R;

    open spec fn spec_into(self) -> RenderResourceInit<R> {
        RenderResourceInit::Deferred(self)
    }

    fn into_render_resource(self) -> (init: RenderResourceInit<R>) {
        RenderResourceInit::Deferred(self)
    }
}

/// A copyable, non-owning capability token for a declared resource: the
/// generational id, bound at compile time to the kind of store it must be
/// resolved against.
pub struct RenderHandle<R: RenderResource> {
    pub id: crate::RenderResourceId,
    pub data: core::marker::PhantomData<R>,
}

impl<R: RenderResource> RenderHandle<R> {
    /// A handle for a given id.
    pub fn of_id(id: crate::RenderResourceId) -> (handle: Self)
        ensures
            handle.id == id,
    {
        RenderHandle { id, data: core::marker::PhantomData }
    }
}

impl<R: RenderResource> Clone for RenderHandle<R> {
    fn clone(&self) -> (res: Self)
        ensures
            res == *self,
    {
        *self
    }
}

impl<R: RenderResource> Copy for RenderHandle<R> {

}

/// One frame's resources of a single kind.
pub struct SimpleResourceStore<R: RenderResource> {
    last_frame_resources: Vec<(InternedRenderLabel, RenderResourceMeta<R>)>,
    current_resources: Vec<(u16, RenderResourceMeta<R>)>,
    queued_resources: Vec<(u16, Option<R::Descriptor>)>,
    resources_to_save: Vec<(u16, InternedRenderLabel)>,
}

/// The entries that realizing a queue appends to `current`: each queued slot
/// keeps its declared descriptor and receives the data produced for it.
pub open spec fn realized_entries<R: RenderResource>(
    queued: Seq<(u16, Option<R::Descriptor>)>,
    produced: Seq<R::Data>,
) -> Seq<(u16, RenderResourceMeta<R>)> {
    Seq::new(
        queued.len(),
        |j: int|
            (
                queued[j].0,
                RenderResourceMeta { descriptor: queued[j].1, resource: produced[j] },
            ),
    )
}

/// The retained table with every binding of `label` removed.
pub open spec fn without_label<R: RenderResource>(
    s: Seq<(InternedRenderLabel, RenderResourceMeta<R>)>,
    label: InternedRenderLabel,
) -> Seq<(InternedRenderLabel, RenderResourceMeta<R>)>
    decreases s.len(),
{
    if s.len() == 0 {
        Seq::empty()
    } else {
        let rest = without_label(s.drop_last(), label);
        if s.last().0 == label {
            rest
        } else {
            rest.push(s.last())
        }
    }
}

/// Removing one label's bindings leaves that label unresolvable and every
/// other label's binding alone.
pub proof fn lemma_without_label_lookup<R: RenderResource>(
    s: Seq<(InternedRenderLabel, RenderResourceMeta<R>)>,
    label: InternedRenderLabel,
    probe: InternedRenderLabel,
)
    ensures
        lookup(without_label(s, label), probe) == if probe == label {
            None::<RenderResourceMeta<R>>
        } else {
            lookup(s, probe)
        },
    decreases s.len(),
{
    if s.len() > 0 {
        lemma_without_label_lookup(s.drop_last(), label, probe);
        if s.last().0 != label {
            assert(without_label(s, label).drop_last() =~= without_label(s.drop_last(), label));
        }
    }
}

/// A table that does not resolve a label is unchanged by removing it.
pub proof fn lemma_without_label_absent<R: RenderResource>(
    s: Seq<(InternedRenderLabel, RenderResourceMeta<R>)>,
    label: InternedRenderLabel,
)
    requires
        lookup(s, label) is None,
    ensures
        without_label(s, label) == s,
    decreases s.len(),
{
    if s.len() > 0 {
        lemma_without_label_absent(s.drop_last(), label);
        assert(without_label(s, label) =~= s);
    }
}

/// The retained table a reset produces: every current entry marked to save
/// is promoted under its label, in table order, so that for a label marked
/// twice the later current entry wins.
pub open spec fn promoted_entries<R: RenderResource>(
    current: Seq<(u16, RenderResourceMeta<R>)>,
    to_save: Seq<(u16, InternedRenderLabel)>,
) -> Seq<(InternedRenderLabel, RenderResourceMeta<R>)>
    decreases current.len(),
{
    if current.len() == 0 {
        Seq::empty()
    } else {
        let rest = promoted_entries(current.drop_last(), to_save);
        match lookup(to_save, current.last().0) {
            Some(label) => rest.push((label, current.last().1)),
            None => rest,
        }
    }
}

impl<R: RenderResource> SimpleResourceStore<R> {
    /// This frame's realized resources, keyed by slot index.
    pub closed spec fn current(self) -> Seq<(u16, RenderResourceMeta<R>)> {
        self.current_resources@
    }

    /// Deferred construction requests awaiting device access, keyed by slot
    /// index.
    pub closed spec fn queued(self) -> Seq<(u16, Option<R::Descriptor>)> {
        self.queued_resources@
    }

    /// Resources promoted at the previous reset, keyed by retention label.
    /// Later bindings shadow earlier ones.
    pub closed spec fn last_frame(self) -> Seq<(InternedRenderLabel, RenderResourceMeta<R>)> {
        self.last_frame_resources@
    }

    /// The retention marks of the running frame: slot index to label. Later
    /// bindings shadow earlier ones.
    pub closed spec fn to_save(self) -> Seq<(u16, InternedRenderLabel)> {
        self.resources_to_save@
    }

    /// A slot index appears at most once, and in at most one of `current`
    /// and `queued`.
    pub open spec fn wf(self) -> bool {
        &&& distinct_keys(self.current())
        &&& distinct_keys(self.queued())
        &&& forall|i: int, j: int|
            0 <= i < self.current().len() && 0 <= j < self.queued().len()
                ==> self.current()[i].0 != self.queued()[j].0
    }

    /// The slot index is taken in this frame, realized or still queued.
    pub open spec fn contains_index(self, index: u16) -> bool {
        lookup(self.current(), index) is Some || lookup(self.queued(), index) is Some
    }

    /// Every taken slot index is below `bound`.
    pub open spec fn keys_below(self, bound: int) -> bool {
        &&& forall|i: int| 0 <= i < self.current().len() ==> self.current()[i].0 < bound
        &&& forall|i: int| 0 <= i < self.queued().len() ==> self.queued()[i].0 < bound
    }

    /// An empty store, as a new graph owns it.
    pub fn new() -> (store: Self)
        ensures
            store.wf(),
            store.current() == Seq::<(u16, RenderResourceMeta<R>)>::empty(),
            store.queued() == Seq::<(u16, Option<R::Descriptor>)>::empty(),
            store.last_frame() == Seq::<(InternedRenderLabel, RenderResourceMeta<R>)>::empty(),
            store.to_save() == Seq::<(u16, InternedRenderLabel)>::empty(),
    {
        SimpleResourceStore {
            last_frame_resources: Vec::new(),
            current_resources: Vec::new(),
            queued_resources: Vec::new(),
            resources_to_save: Vec::new(),
        }
    }

    /// Declares the resource at `key`: an eager declaration lands in
    /// `current`, a deferred one in `queued`. Declaring the same slot twice
    /// in one frame is an authorship error, which the precondition rules
    /// out: resource authorship is exclusive and never silently overwritten.
    pub fn insert(&mut self, key: u16, data: RenderResourceInit<R>)
        requires
            old(self).wf(),
            !old(self).contains_index(key),
        ensures
            final(self).wf(),
            data matches RenderResourceInit::Eager(meta) ==> {
                &&& final(self).current() == old(self).current().push((key, meta))
                &&& final(self).queued() == old(self).queued()
            },
            data matches RenderResourceInit::Deferred(init) ==> {
                &&& final(self).current() == old(self).current()
                &&& final(self).queued() == old(self).queued().push((key, init.descriptor))
            },
            final(self).last_frame() == old(self).last_frame(),
            final(self).to_save() == old(self).to_save(),
    {
        proof {
            assert forall|j: int| 0 <= j < self.current().len() implies self.current()[j].0 != key by {
                if self.current()[j].0 == key {
                    lemma_lookup_some_of_present(self.current(), j);
                }
            }
            assert forall|j: int| 0 <= j < self.queued().len() implies self.queued()[j].0 != key by {
                if self.queued()[j].0 == key {
                    lemma_lookup_some_of_present(self.queued(), j);
                }
            }
        }
        match data {
            RenderResourceInit::Eager(meta) => {
                proof {
                    lemma_push_distinct(self.current(), key, meta);
                }
                self.current_resources.push((key, meta));
            }
            RenderResourceInit::Deferred(init) => {
                proof {
                    lemma_push_distinct(self.queued(), key, init.descriptor);
                }
                self.queued_resources.push((key, init.descriptor));
            }
        }
    }

    /// The realized resource at `key`, if this frame has one. A slot that is
    /// still queued, or was never declared, resolves to nothing.
    pub fn get(&self, key: u16) -> (res: Option<&RenderResourceMeta<R>>)
        requires
            self.wf(),
        ensures
            match res {
                Some(meta) => lookup(self.current(), key) == Some(*meta),
                None => lookup(self.current(), key) is None,
            },
    {
        let n = self.current_resources.len();
        let mut i: usize = 0;
        while i < n
            invariant
                self.wf(),
                n == self.current().len(),
                i <= n,
                forall|j: int| 0 <= j < i ==> self.current()[j].0 != key,
            decreases n - i,
        {
            let entry = &self.current_resources[i];
            if entry.0 == key {
                proof {
                    lemma_lookup_at(self.current(), i as int);
                }
                return Some(&entry.1);
            }
            i += 1;
        }
        proof {
            lemma_lookup_none_of_absent(self.current(), key);
        }
        None
    }

    /// Realizes every queued resource: the device callback produces the data
    /// for each queued slot, the result joins `current` carrying exactly the
    /// descriptor its declaration was given, and the queue empties. Must run
    /// after all declarations for the frame and before any resolution, since
    /// resolution finds only what is in `current`.
    pub fn init_deferred<F: Fn(u16, &Option<R::Descriptor>) -> R::Data>(&mut self, f: &F)
        requires
            old(self).wf(),
            forall|k: u16, d: Option<R::Descriptor>| call_requires(*f, (k, &d)),
        ensures
            final(self).wf(),
            final(self).queued().len() == 0,
            final(self).last_frame() == old(self).last_frame(),
            final(self).to_save() == old(self).to_save(),
            exists|produced: Seq<R::Data>|
                {
                    &&& produced.len() == old(self).queued().len()
                    &&& final(self).current() == old(self).current() + realized_entries(
                        old(self).queued(),
                        produced,
                    )
                    &&& forall|j: int|
                        0 <= j < produced.len() ==> call_ensures(
                            *f,
                            (old(self).queued()[j].0, &old(self).queued()[j].1),
                            #[trigger] produced[j],
                        )
                },
    {
        let ghost old_q = self.queued_resources@;
        let ghost old_cur = self.current_resources@;
        let ghost mut produced: Seq<R::Data> = Seq::empty();
        while self.queued_resources.len() > 0
            invariant
                forall|k: u16, d: Option<R::Descriptor>| call_requires(*f, (k, &d)),
                produced.len() <= old_q.len(),
                self.queued_resources@ =~= old_q.skip(produced.len() as int),
                self.current_resources@ == old_cur + realized_entries(
                    old_q.take(produced.len() as int),
                    produced,
                ),
                forall|j: int|
                    0 <= j < produced.len() ==> call_ensures(
                        *f,
                        (old_q[j].0, &old_q[j].1),
                        #[trigger] produced[j],
                    ),
                self.last_frame_resources@ == old(self).last_frame(),
                self.resources_to_save@ == old(self).to_save(),
                distinct_keys(self.current()),
                distinct_keys(self.queued()),
                forall|i: int, j: int|
                    0 <= i < self.current().len() && 0 <= j < self.queued().len()
                        ==> self.current()[i].0 != self.queued()[j].0,
            decreases self.queued_resources.len(),
        {
            let ghost n = produced.len() as int;
            let (key, descriptor) = self.queued_resources.remove(0);
            let data = f(key, &descriptor);
            proof {
                assert forall|j: int|
                    0 <= j < self.current().len() implies self.current()[j].0 != key by {}
                lemma_lookup_none_of_absent(self.current(), key);
                lemma_push_distinct(
                    self.current(),
                    key,
                    RenderResourceMeta { descriptor, resource: data },
                );
            }
            self.current_resources.push(
                (key, RenderResourceMeta { descriptor, resource: data }),
            );
            proof {
                produced = produced.push(data);
                assert(old_q.take(n + 1) =~= old_q.take(n).push(old_q[n]));
                assert(self.current_resources@ =~= old_cur + realized_entries(
                    old_q.take(n + 1),
                    produced,
                ));
                assert(self.queued_resources@ =~= old_q.skip(n + 1));
            }
        }
        proof {
            assert(old_q.take(produced.len() as int) =~= old_q);
        }
    }

    /// Marks the resource at `key` to survive the coming frame boundary
    /// under `label`. A later mark for the same slot or the same label
    /// silently replaces the earlier one: labels are caller-controlled
    /// stable identities.
    pub fn mark_retain(&mut self, key: u16, label: InternedRenderLabel)
        ensures
            final(self).to_save() == old(self).to_save().push((key, label)),
            final(self).current() == old(self).current(),
            final(self).queued() == old(self).queued(),
            final(self).last_frame() == old(self).last_frame(),
    {
        self.resources_to_save.push((key, label));
    }

    /// The resource carried over from the previous frame under `label`, if
    /// any. Nothing under a cold-started or dropped label: the caller
    /// branches and falls back to fresh creation.
    pub fn get_retained(&self, label: InternedRenderLabel) -> (res: Option<
        &RenderResourceMeta<R>,
    >)
        ensures
            match res {
                Some(meta) => lookup(self.last_frame(), label) == Some(*meta),
                None => lookup(self.last_frame(), label) is None,
            },
    {
        let mut i = self.last_frame_resources.len();
        while i > 0
            invariant
                i <= self.last_frame().len(),
                forall|j: int| i <= j < self.last_frame().len() ==> self.last_frame()[j].0 != label,
            decreases i,
        {
            i -= 1;
            let entry = &self.last_frame_resources[i];
            if entry.0 == label {
                proof {
                    lemma_lookup_last_match(self.last_frame(), i as int);
                }
                return Some(&entry.1);
            }
        }
        proof {
            lemma_lookup_none_of_absent(self.last_frame(), label);
        }
        None
    }

    /// Takes the resource retained under `label` out of the carry-over
    /// table, leaving no binding of that label behind.
    pub fn take_retained(&mut self, label: InternedRenderLabel) -> (res: Option<
        RenderResourceMeta<R>,
    >)
        ensures
            res == lookup(old(self).last_frame(), label),
            final(self).last_frame() == without_label(old(self).last_frame(), label),
            final(self).current() == old(self).current(),
            final(self).queued() == old(self).queued(),
            final(self).to_save() == old(self).to_save(),
    {
        let ghost old_lf = self.last_frame_resources@;
        let mut kept: Vec<(InternedRenderLabel, RenderResourceMeta<R>)> = Vec::new();
        let mut res: Option<RenderResourceMeta<R>> = None;
        let ghost mut n: int = 0;
        while self.last_frame_resources.len() > 0
            invariant
                0 <= n <= old_lf.len(),
                self.last_frame_resources@ =~= old_lf.skip(n),
                kept@ == without_label(old_lf.take(n), label),
                res == lookup(old_lf.take(n), label),
                self.current_resources@ == old(self).current(),
                self.queued_resources@ == old(self).queued(),
                self.resources_to_save@ == old(self).to_save(),
            decreases self.last_frame_resources.len(),
        {
            let (entry_label, meta) = self.last_frame_resources.remove(0);
            proof {
                assert(old_lf.take(n + 1) =~= old_lf.take(n).push(old_lf[n]));
                assert(old_lf.take(n + 1).drop_last() =~= old_lf.take(n));
            }
            if entry_label == label {
                res = Some(meta);
            } else {
                kept.push((entry_label, meta));
            }
            proof {
                n = n + 1;
                assert(self.last_frame_resources@ =~= old_lf.skip(n));
            }
        }
        proof {
            assert(old_lf.take(n) =~= old_lf);
        }
        self.last_frame_resources = kept;
        res
    }

    /// Ends the frame: every current resource marked to save is promoted
    /// into the carry-over table under its label, and `current`, `queued`
    /// and the marks empty. Carried-over resources not freshly re-saved this
    /// frame are dropped: retention is a strict one-frame window.
    pub fn reset(&mut self)
        requires
            old(self).wf(),
        ensures
            final(self).wf(),
            final(self).current().len() == 0,
            final(self).queued().len() == 0,
            final(self).to_save().len() == 0,
            final(self).last_frame() == promoted_entries(old(self).current(), old(self).to_save()),
    {
        let ghost old_cur = self.current_resources@;
        self.last_frame_resources = Vec::new();
        self.queued_resources = Vec::new();
        let ghost mut n: int = 0;
        while self.current_resources.len() > 0
            invariant
                0 <= n <= old_cur.len(),
                self.current_resources@ =~= old_cur.skip(n),
                self.resources_to_save@ == old(self).to_save(),
                self.queued_resources@.len() == 0,
                self.last_frame_resources@ == promoted_entries(old_cur.take(n), old(self).to_save()),
            decreases self.current_resources.len(),
        {
            let (key, meta) = self.current_resources.remove(0);
            proof {
                assert(old_cur.take(n + 1) =~= old_cur.take(n).push(old_cur[n]));
                assert(old_cur.take(n + 1).drop_last() =~= old_cur.take(n));
            }
            match find_label(&self.resources_to_save, key) {
                Some(label) => {
                    self.last_frame_resources.push((label, meta));
                }
                None => {}
            }
            proof {
                n = n + 1;
                assert(self.current_resources@ =~= old_cur.skip(n));
            }
        }
        self.resources_to_save = Vec::new();
        proof {
            assert(old_cur.take(n) =~= old_cur);
        }
    }

    /// The realized resource for a handle's id. Resolution goes by slot
    /// index: the id's generation names a logical version for dependency
    /// tracking and does not select a different slot.
    pub fn get_data(&self, key: crate::RenderResourceId) -> (res: Option<&RenderResourceMeta<R>>)
        requires
            self.wf(),
        ensures
            match res {
                Some(meta) => lookup(self.current(), key.index) == Some(*meta),
                None => lookup(self.current(), key.index) is None,
            },
    {
        self.get(key.index)
    }
}

impl<R: RenderResource> Default for SimpleResourceStore<R> {
    /// An empty store.
    fn default() -> (store: Self)
        ensures
            store.wf(),
            store.current() == Seq::<(u16, RenderResourceMeta<R>)>::empty(),
            store.queued() == Seq::<(u16, Option<R::Descriptor>)>::empty(),
            store.last_frame() == Seq::<(InternedRenderLabel, RenderResourceMeta<R>)>::empty(),
            store.to_save() == Seq::<(u16, InternedRenderLabel)>::empty(),
    {
        SimpleResourceStore::new()
    }
}

/// The realized table after a batch of declarations: each eager declaration
/// appends its meta under its index, in order.
pub open spec fn current_after_inserts<R: RenderResource>(
    current: Seq<(u16, RenderResourceMeta<R>)>,
    inserts: Seq<(u16, RenderResourceInit<R>)>,
) -> Seq<(u16, RenderResourceMeta<R>)>
    decreases inserts.len(),
{
    if inserts.len() == 0 {
        current
    } else {
        let rest = current_after_inserts(current, inserts.drop_last());
        match inserts.last().1 {
            RenderResourceInit::Eager(meta) => rest.push((inserts.last().0, meta)),
            RenderResourceInit::Deferred(init) => rest,
        }
    }
}

/// The queue after a batch of declarations: each deferred declaration
/// appends its descriptor under its index, in order.
pub open spec fn queued_after_inserts<R: RenderResource>(
    queued: Seq<(u16, Option<R::Descriptor>)>,
    inserts: Seq<(u16, RenderResourceInit<R>)>,
) -> Seq<(u16, Option<R::Descriptor>)>
    decreases inserts.len(),
{
    if inserts.len() == 0 {
        queued
    } else {
        let rest = queued_after_inserts(queued, inserts.drop_last());
        match inserts.last().1 {
            RenderResourceInit::Eager(meta) => rest,
            RenderResourceInit::Deferred(init) => rest.push((inserts.last().0, init.descriptor)),
        }
    }
}

/// An index no declaration touches keeps its binding in the realized table.
proof fn lemma_inserts_current_other<R: RenderResource>(
    current: Seq<(u16, RenderResourceMeta<R>)>,
    inserts: Seq<(u16, RenderResourceInit<R>)>,
    key: u16,
)
    requires
        forall|x: int| 0 <= x < inserts.len() ==> inserts[x].0 != key,
    ensures
        lookup(current_after_inserts(current, inserts), key) == lookup(current, key),
    decreases inserts.len(),
{
    if inserts.len() > 0 {
        lemma_inserts_current_other(current, inserts.drop_last(), key);
        match inserts.last().1 {
            RenderResourceInit::Eager(meta) => {
                lemma_lookup_push(
                    current_after_inserts(current, inserts.drop_last()),
                    inserts.last().0,
                    meta,
                    key,
                );
            }
            RenderResourceInit::Deferred(init) => {}
        }
    }
}

/// An index no declaration touches keeps its binding in the queue.
proof fn lemma_inserts_queued_other<R: RenderResource>(
    queued: Seq<(u16, Option<R::Descriptor>)>,
    inserts: Seq<(u16, RenderResourceInit<R>)>,
    key: u16,
)
    requires
        forall|x: int| 0 <= x < inserts.len() ==> inserts[x].0 != key,
    ensures
        lookup(queued_after_inserts(queued, inserts), key) == lookup(queued, key),
    decreases inserts.len(),
{
    if inserts.len() > 0 {
        lemma_inserts_queued_other(queued, inserts.drop_last(), key);
        match inserts.last().1 {
            RenderResourceInit::Eager(meta) => {}
            RenderResourceInit::Deferred(init) => {
                lemma_lookup_push(
                    queued_after_inserts(queued, inserts.drop_last()),
                    inserts.last().0,
                    init.descriptor,
                    key,
                );
            }
        }
    }
}

/// What one declaration of a batch binds: an eager declaration binds its
/// index in the realized table and leaves the queue clear of it; a deferred
/// declaration binds its descriptor in the queue and leaves the realized
/// table clear of it.
proof fn lemma_inserts_at<R: RenderResource>(
    current: Seq<(u16, RenderResourceMeta<R>)>,
    queued: Seq<(u16, Option<R::Descriptor>)>,
    inserts: Seq<(u16, RenderResourceInit<R>)>,
    a: int,
)
    requires
        forall|x: int, y: int| 0 <= x < y < inserts.len() ==> inserts[x].0 != inserts[y].0,
        forall|x: int|
            0 <= x < inserts.len() ==> lookup(current, #[trigger] inserts[x].0) is None && lookup(
                queued,
                inserts[x].0,
            ) is None,
        0 <= a < inserts.len(),
    ensures
        inserts[a].1 matches RenderResourceInit::Eager(meta) ==> {
            &&& lookup(current_after_inserts(current, inserts), inserts[a].0) == Some(meta)
            &&& lookup(queued_after_inserts(queued, inserts), inserts[a].0) is None
        },
        inserts[a].1 matches RenderResourceInit::Deferred(init) ==> {
            &&& lookup(current_after_inserts(current, inserts), inserts[a].0) is None
            &&& lookup(queued_after_inserts(queued, inserts), inserts[a].0) == Some(init.descriptor)
        },
    decreases inserts.len(),
{
    let key = inserts[a].0;
    if a == inserts.len() - 1 {
        assert(forall|x: int| 0 <= x < inserts.drop_last().len() ==> inserts.drop_last()[x].0 != key);
        lemma_inserts_current_other(current, inserts.drop_last(), key);
        lemma_inserts_queued_other(queued, inserts.drop_last(), key);
        match inserts[a].1 {
            RenderResourceInit::Eager(meta) => {
                lemma_lookup_push(current_after_inserts(current, inserts.drop_last()), key, meta, key);
            }
            RenderResourceInit::Deferred(init) => {
                lemma_lookup_push(
                    queued_after_inserts(queued, inserts.drop_last()),
                    key,
                    init.descriptor,
                    key,
                );
            }
        }
    } else {
        assert(inserts.drop_last()[a] == inserts[a]);
        lemma_inserts_at(current, queued, inserts.drop_last(), a);
        assert(inserts.last().0 != key);
        match inserts.last().1 {
            RenderResourceInit::Eager(meta) => {
                lemma_lookup_push(
                    current_after_inserts(current, inserts.drop_last()),
                    inserts.last().0,
                    meta,
                    key,
                );
            }
            RenderResourceInit::Deferred(init) => {
                lemma_lookup_push(
                    queued_after_inserts(queued, inserts.drop_last()),
                    inserts.last().0,
                    init.descriptor,
                    key,
                );
            }
        }
    }
}

/// A batch of declarations at distinct fresh indices keeps the queue's keys
/// distinct.
proof fn lemma_inserts_queued_distinct<R: RenderResource>(
    queued: Seq<(u16, Option<R::Descriptor>)>,
    inserts: Seq<(u16, RenderResourceInit<R>)>,
)
    requires
        distinct_keys(queued),
        forall|x: int, y: int| 0 <= x < y < inserts.len() ==> inserts[x].0 != inserts[y].0,
        forall|x: int| 0 <= x < inserts.len() ==> lookup(queued, #[trigger] inserts[x].0) is None,
    ensures
        distinct_keys(queued_after_inserts(queued, inserts)),
    decreases inserts.len(),
{
    if inserts.len() > 0 {
        lemma_inserts_queued_distinct(queued, inserts.drop_last());
        match inserts.last().1 {
            RenderResourceInit::Eager(meta) => {}
            RenderResourceInit::Deferred(init) => {
                assert(forall|x: int|
                    0 <= x < inserts.drop_last().len() ==> inserts.drop_last()[x].0
                        != inserts.last().0);
                lemma_inserts_queued_other(queued, inserts.drop_last(), inserts.last().0);
                lemma_push_distinct(
                    queued_after_inserts(queued, inserts.drop_last()),
                    inserts.last().0,
                    init.descriptor,
                );
            }
        }
    }
}

/// For any batch of declarations at distinct, fresh indices: realizing the
/// queue afterwards resolves every declared index to exactly the declared
/// data. An eager declaration is resolvable at once and unchanged by
/// realization; a deferred declaration resolves to nothing until
/// realization, and afterwards carries its declared descriptor and the data
/// the device callback produced for its queue slot.
pub proof fn lemma_insert_realize_get<R: RenderResource>(
    current: Seq<(u16, RenderResourceMeta<R>)>,
    queued: Seq<(u16, Option<R::Descriptor>)>,
    inserts: Seq<(u16, RenderResourceInit<R>)>,
    produced: Seq<R::Data>,
    a: int,
)
    requires
        distinct_keys(queued),
        forall|x: int, y: int| 0 <= x < y < inserts.len() ==> inserts[x].0 != inserts[y].0,
        forall|x: int|
            0 <= x < inserts.len() ==> lookup(current, #[trigger] inserts[x].0) is None && lookup(
                queued,
                inserts[x].0,
            ) is None,
        produced.len() == queued_after_inserts(queued, inserts).len(),
        0 <= a < inserts.len(),
    ensures
        inserts[a].1 matches RenderResourceInit::Eager(meta) ==> {
            &&& lookup(current_after_inserts(current, inserts), inserts[a].0) == Some(meta)
            &&& lookup(
                current_after_inserts(current, inserts) + realized_entries(
                    queued_after_inserts(queued, inserts),
                    produced,
                ),
                inserts[a].0,
            ) == Some(meta)
        },
        inserts[a].1 matches RenderResourceInit::Deferred(init) ==> {
            &&& lookup(current_after_inserts(current, inserts), inserts[a].0) is None
            &&& exists|j: int|
                (0 <= j < queued_after_inserts(queued, inserts).len()
                    && #[trigger] queued_after_inserts(queued, inserts)[j] == (
                    inserts[a].0,
                    init.descriptor,
                ) && lookup(
                    current_after_inserts(current, inserts) + realized_entries(
                        queued_after_inserts(queued, inserts),
                        produced,
                    ),
                    inserts[a].0,
                ) == Some(
                    (RenderResourceMeta::<R> {
                        descriptor: init.descriptor,
                        resource: produced[j],
                    }),
                ))
        },
{
    let key = inserts[a].0;
    let cur1 = current_after_inserts(current, inserts);
    let q1 = queued_after_inserts(queued, inserts);
    let realized = realized_entries(q1, produced);
    lemma_inserts_at(current, queued, inserts, a);
    lemma_inserts_queued_distinct(queued, inserts);
    lemma_lookup_concat(cur1, realized, key);
    match inserts[a].1 {
        RenderResourceInit::Eager(meta) => {
            assert forall|j: int| 0 <= j < realized.len() implies realized[j].0 != key by {
                if q1[j].0 == key {
                    lemma_lookup_some_of_present(q1, j);
                }
            }
            lemma_lookup_none_of_absent(realized, key);
        }
        RenderResourceInit::Deferred(init) => {
            crate::keyed::lemma_present_of_lookup_some(q1, key);
            let j = choose|j: int|
                0 <= j < q1.len() && #[trigger] q1[j] == (key, lookup(q1, key).unwrap());
            assert(distinct_keys(realized)) by {
                assert(forall|x: int| 0 <= x < realized.len() ==> realized[x].0 == q1[x].0);
            }
            assert(realized[j].0 == key);
            lemma_lookup_at(realized, j);
            assert(realized[j].1 == RenderResourceMeta::<R> {
                descriptor: init.descriptor,
                resource: produced[j],
            });
        }
    }
}

/// Promotion carries exactly the marked resource: if `label` is the
/// retention mark of `index` and of no other index, the carry-over table a
/// reset produces resolves `label` to the meta that was current at `index`.
pub proof fn lemma_retention_round_trip<R: RenderResource>(
    current: Seq<(u16, RenderResourceMeta<R>)>,
    to_save: Seq<(u16, InternedRenderLabel)>,
    index: u16,
    label: InternedRenderLabel,
)
    requires
        distinct_keys(current),
        lookup(to_save, index) == Some(label),
        forall|k: u16| lookup(to_save, k) == Some(label) ==> k == index,
        lookup(current, index) is Some,
    ensures
        lookup(promoted_entries(current, to_save), label) == lookup(current, index),
    decreases current.len(),
{
    let last = current.last();
    let rest = promoted_entries(current.drop_last(), to_save);
    if last.0 == index {
        lemma_lookup_push(rest, label, last.1, label);
    } else {
        lemma_retention_round_trip(current.drop_last(), to_save, index, label);
        match lookup(to_save, last.0) {
            Some(other) => {
                assert(other != label);
                lemma_lookup_push(rest, other, last.1, label);
            }
            None => {}
        }
    }
}

/// A label never marked is absent from the carry-over table a reset
/// produces.
pub proof fn lemma_unmarked_label_absent<R: RenderResource>(
    current: Seq<(u16, RenderResourceMeta<R>)>,
    to_save: Seq<(u16, InternedRenderLabel)>,
    label: InternedRenderLabel,
)
    requires
        forall|k: u16| lookup(to_save, k) != Some(label),
    ensures
        lookup(promoted_entries(current, to_save), label) is None,
    decreases current.len(),
{
    if current.len() > 0 {
        lemma_unmarked_label_absent(current.drop_last(), to_save, label);
        let rest = promoted_entries(current.drop_last(), to_save);
        match lookup(to_save, current.last().0) {
            Some(other) => {
                lemma_lookup_push(rest, other, current.last().1, label);
            }
            None => {}
        }
    }
}

/// Retention is a strict one-frame window: a label saved in one frame but
/// not re-marked in the next is absent from the carry-over table after the
/// next frame's reset, however it was saved before.
pub proof fn lemma_one_frame_retention_window<R: RenderResource>(
    frame_n_current: Seq<(u16, RenderResourceMeta<R>)>,
    frame_n_to_save: Seq<(u16, InternedRenderLabel)>,
    next_frame_current: Seq<(u16, RenderResourceMeta<R>)>,
    next_frame_to_save: Seq<(u16, InternedRenderLabel)>,
    label: InternedRenderLabel,
)
    requires
        lookup(promoted_entries(frame_n_current, frame_n_to_save), label) is Some,
        forall|k: u16| lookup(next_frame_to_save, k) != Some(label),
    ensures
        lookup(promoted_entries(next_frame_current, next_frame_to_save), label) is None,
{
    lemma_unmarked_label_absent(next_frame_current, next_frame_to_save, label);
}

/// The label the frame's marks bind `key` to, if any.
fn find_label(saves: &Vec<(u16, InternedRenderLabel)>, key: u16) -> (res: Option<
    InternedRenderLabel,
>)
    ensures
        res == lookup(saves@, key),
{
    let mut i = saves.len();
    while i > 0
        invariant
            i <= saves@.len(),
            forall|j: int| i <= j < saves@.len() ==> saves@[j].0 != key,
        decreases i,
    {
        i -= 1;
        let entry = &saves[i];
        if entry.0 == key {
            proof {
                lemma_lookup_last_match(saves@, i as int);
            }
            return Some(entry.1);
        }
    }
    proof {
        lemma_lookup_none_of_absent(saves@, key);
    }
    None
}

} // verus!
