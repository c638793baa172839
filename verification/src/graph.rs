//! The render graph: one store per resource kind, a monotonically increasing
//! slot allocator, a bind-group registry, and the per-frame phase machine.

use vstd::prelude::*;

use crate::bind_group::{BindGroupStore, RenderBindGroup, RenderBindGroupDescriptor};
use crate::buffer::{Buffer, BufferDescriptor};
use crate::dependency::RenderDependencies;
use crate::keyed::lookup;
use crate::resource::{
    realized_entries, IntoRenderResource, RenderHandle, RenderResource, RenderResourceInit,
    RetainedRenderResource, SimpleResourceStore,
};
use crate::texture::{Texture, TextureDescriptor};
use crate::RenderResourceId;

verus! {

/// Where in its frame the graph stands. Declarations are accepted only while
/// building; resolution is allowed only while executing. Realizing the queued
/// resources is the sole transition out of `Building`, and `reset` is the
/// sole transition back to `Idle`.
#[derive(Copy, Clone, PartialEq, Eq, Structural, Debug)]
pub enum GraphPhase {
    Idle,
    Building,
    Executing,
}

/// A per-frame graph of GPU-side resources and the bookkeeping a scheduler
/// needs: which slots are realized, which are still queued, which are marked
/// for retention, and which bind groups exist.
pub struct RenderGraph {
    pub next_id: u16,
    pub phase: GraphPhase,
    pub bind_groups: BindGroupStore,
    pub textures: SimpleResourceStore<Texture>,
    pub buffers: SimpleResourceStore<Buffer>,
}

impl RenderGraph {
    /// Every store is internally consistent and no taken slot index has
    /// reached the allocator's next value.
    pub open spec fn wf(self) -> bool {
        &&& self.textures.wf()
        &&& self.textures.keys_below(self.next_id as int)
        &&& self.buffers.wf()
        &&& self.buffers.keys_below(self.next_id as int)
        &&& self.bind_groups.wf()
    }

    /// A fresh graph: empty stores, the allocator at zero, idle.
    pub fn new() -> (graph: Self)
        ensures
            graph.wf(),
            graph.phase == GraphPhase::Idle,
            graph.next_id == 0,
            graph.textures.current().len() == 0,
            graph.textures.queued().len() == 0,
            graph.textures.last_frame().len() == 0,
            graph.textures.to_save().len() == 0,
            graph.buffers.current().len() == 0,
            graph.buffers.queued().len() == 0,
            graph.buffers.last_frame().len() == 0,
            graph.buffers.to_save().len() == 0,
            graph.bind_groups.entries().len() == 0,
    {
        RenderGraph {
            next_id: 0,
            phase: GraphPhase::Idle,
            bind_groups: BindGroupStore::new(),
            textures: SimpleResourceStore::new(),
            buffers: SimpleResourceStore::new(),
        }
    }

    /// Realizes every queued resource of every kind against the device
    /// callbacks and moves the graph into its executing phase. This is the
    /// sole transition out of `Building`: it runs after all declarations for
    /// the frame and before any node resolves a resource.
    pub fn init_queued_resources<
        FT: Fn(u16, &Option<TextureDescriptor>) -> Texture,
        FB: Fn(u16, &Option<BufferDescriptor>) -> Buffer,
    >(&mut self, create_texture: &FT, create_buffer: &FB)
        requires
            old(self).wf(),
            old(self).phase == GraphPhase::Building,
            forall|k: u16, d: Option<TextureDescriptor>| call_requires(*create_texture, (k, &d)),
            forall|k: u16, d: Option<BufferDescriptor>| call_requires(*create_buffer, (k, &d)),
        ensures
            final(self).wf(),
            final(self).phase == GraphPhase::Executing,
            final(self).next_id == old(self).next_id,
            final(self).bind_groups == old(self).bind_groups,
            final(self).textures.queued().len() == 0,
            final(self).buffers.queued().len() == 0,
            final(self).textures.last_frame() == old(self).textures.last_frame(),
            final(self).buffers.last_frame() == old(self).buffers.last_frame(),
            final(self).textures.to_save() == old(self).textures.to_save(),
            final(self).buffers.to_save() == old(self).buffers.to_save(),
            exists|produced: Seq<Texture>|
                {
                    &&& produced.len() == old(self).textures.queued().len()
                    &&& final(self).textures.current() == old(self).textures.current()
                        + realized_entries(old(self).textures.queued(), produced)
                    &&& forall|j: int|
                        0 <= j < produced.len() ==> call_ensures(
                            *create_texture,
                            (old(self).textures.queued()[j].0, &old(self).textures.queued()[j].1),
                            #[trigger] produced[j],
                        )
                },
            exists|produced: Seq<Buffer>|
                {
                    &&& produced.len() == old(self).buffers.queued().len()
                    &&& final(self).buffers.current() == old(self).buffers.current()
                        + realized_entries(old(self).buffers.queued(), produced)
                    &&& forall|j: int|
                        0 <= j < produced.len() ==> call_ensures(
                            *create_buffer,
                            (old(self).buffers.queued()[j].0, &old(self).buffers.queued()[j].1),
                            #[trigger] produced[j],
                        )
                },
    {
        self.textures.init_deferred(create_texture);
        self.buffers.init_deferred(create_buffer);
        self.phase = GraphPhase::Executing;
    }

    /// Ends the frame: in every store, the resources marked to save are
    /// promoted into the carry-over table under their labels, everything else
    /// is dropped, the bind-group registry empties, and the slot allocator
    /// restarts, since indices are not stable across frames. This is the sole
    /// transition back to `Idle`.
    pub fn reset(&mut self)
        requires
            old(self).wf(),
            old(self).phase == GraphPhase::Executing,
        ensures
            final(self).wf(),
            final(self).phase == GraphPhase::Idle,
            final(self).next_id == 0,
            final(self).bind_groups.entries().len() == 0,
            final(self).textures.current().len() == 0,
            final(self).textures.queued().len() == 0,
            final(self).textures.to_save().len() == 0,
            final(self).textures.last_frame() == crate::resource::promoted_entries(
                old(self).textures.current(),
                old(self).textures.to_save(),
            ),
            final(self).buffers.current().len() == 0,
            final(self).buffers.queued().len() == 0,
            final(self).buffers.to_save().len() == 0,
            final(self).buffers.last_frame() == crate::resource::promoted_entries(
                old(self).buffers.current(),
                old(self).buffers.to_save(),
            ),
    {
        self.textures.reset();
        self.buffers.reset();
        self.bind_groups = BindGroupStore::new();
        self.next_id = 0;
        self.phase = GraphPhase::Idle;
    }
}

/// The construction-time handle through which a frame's resources are
/// declared, descriptors are consulted, bind groups are requested, and
/// retained resources are recovered. It owns the graph for the duration of
/// the building phase and hands it back through [`RenderGraphBuilder::finish`].
pub struct RenderGraphBuilder {
    graph: RenderGraph,
}

impl RenderGraphBuilder {
    /// The graph as the builder currently holds it.
    pub closed spec fn spec_graph(self) -> RenderGraph {
        self.graph
    }

    /// Opens the building phase of a new frame on an idle graph.
    pub fn new(graph: RenderGraph) -> (builder: Self)
        requires
            graph.phase == GraphPhase::Idle,
        ensures
            builder.spec_graph() == (RenderGraph { phase: GraphPhase::Building, ..graph }),
    {
        let mut graph = graph;
        graph.phase = GraphPhase::Building;
        RenderGraphBuilder { graph }
    }

    /// Closes declaration and hands the graph back, still in its building
    /// phase: realizing the queued resources is the only way out of it.
    pub fn finish(self) -> (graph: RenderGraph)
        ensures
            graph == self.spec_graph(),
    {
        self.graph
    }

    /// Declares a new resource: allocates the next slot index, routes the
    /// declaration into the store of its kind (eager into `current`,
    /// deferred into `queued`), and returns the capability token for it,
    /// at generation zero.
    pub fn new_resource<R: IntoRenderResource>(&mut self, resource: R) -> (handle: RenderHandle<
        R::Resource,
    >)
        requires
            old(self).spec_graph().phase == GraphPhase::Building,
            old(self).spec_graph().next_id < u16::MAX,
            R::Resource::spec_store(old(self).spec_graph()).wf(),
            R::Resource::spec_store(old(self).spec_graph()).keys_below(
                old(self).spec_graph().next_id as int,
            ),
        ensures
            handle.id.index == old(self).spec_graph().next_id,
            handle.id.generation == 0,
            final(self).spec_graph().next_id == old(self).spec_graph().next_id + 1,
            final(self).spec_graph().phase == GraphPhase::Building,
            final(self).spec_graph().bind_groups == old(self).spec_graph().bind_groups,
            R::Resource::spec_store(final(self).spec_graph()).wf(),
            R::Resource::spec_store(final(self).spec_graph()).keys_below(
                old(self).spec_graph().next_id + 1,
            ),
            resource.spec_into() matches RenderResourceInit::Eager(meta) ==> {
                &&& R::Resource::spec_store(final(self).spec_graph()).current()
                    == R::Resource::spec_store(old(self).spec_graph()).current().push(
                    (old(self).spec_graph().next_id, meta),
                )
                &&& R::Resource::spec_store(final(self).spec_graph()).queued()
                    == R::Resource::spec_store(old(self).spec_graph()).queued()
            },
            resource.spec_into() matches RenderResourceInit::Deferred(init) ==> {
                &&& R::Resource::spec_store(final(self).spec_graph()).current()
                    == R::Resource::spec_store(old(self).spec_graph()).current()
                &&& R::Resource::spec_store(final(self).spec_graph()).queued()
                    == R::Resource::spec_store(old(self).spec_graph()).queued().push(
                    (old(self).spec_graph().next_id, init.descriptor),
                )
            },
            R::Resource::spec_store(final(self).spec_graph()).last_frame()
                == R::Resource::spec_store(old(self).spec_graph()).last_frame(),
            R::Resource::spec_store(final(self).spec_graph()).to_save()
                == R::Resource::spec_store(old(self).spec_graph()).to_save(),
            exists|s: SimpleResourceStore<R::Resource>|
                final(self).spec_graph() == (RenderGraph {
                    next_id: (old(self).spec_graph().next_id + 1) as u16,
                    ..#[trigger] R::Resource::with_store(old(self).spec_graph(), s)
                }),
    {
        let init = resource.into_render_resource();
        let index = self.graph.next_id;
        proof {
            lemma_fresh_index(R::Resource::spec_store(self.graph), index);
        }
        let store = R::Resource::get_store_mut(&mut self.graph);
        store.insert(index, init);
        let ghost store_after = *final(store);
        let ghost mid = self.graph;
        self.graph.next_id = index + 1;
        proof {
            R::Resource::lemma_store_lens(old(self).spec_graph(), store_after);
            R::Resource::lemma_spec_store_of_stores(mid, self.graph);
        }
        RenderHandle::of_id(RenderResourceId { index, generation: 0 })
    }

    /// The descriptor attached to a declared, realized resource, if it has
    /// one.
    pub fn get_descriptor_of<R: RenderResource>(&self, resource: RenderHandle<R>) -> (res: Option<
        &R::Descriptor,
    >)
        requires
            R::spec_store(self.spec_graph()).wf(),
        ensures
            match res {
                Some(descriptor) => {
                    &&& lookup(
                        R::spec_store(self.spec_graph()).current(),
                        resource.id.index,
                    ) matches Some(meta)
                    &&& lookup(
                        R::spec_store(self.spec_graph()).current(),
                        resource.id.index,
                    ).unwrap().descriptor == Some(*descriptor)
                },
                None => lookup(R::spec_store(self.spec_graph()).current(), resource.id.index)
                    is None || lookup(
                    R::spec_store(self.spec_graph()).current(),
                    resource.id.index,
                ).unwrap().descriptor is None,
            },
    {
        let store = R::get_store(&self.graph);
        match store.get(resource.id.index) {
            Some(meta) => meta.descriptor.as_ref(),
            None => None,
        }
    }

    /// The descriptor attached to a resource that is known to be realized
    /// and described. Asking for the descriptor of an undescribed or
    /// unrealized resource is an authorship error, which the precondition
    /// rules out.
    pub fn descriptor_of<R: RenderResource>(&self, resource: RenderHandle<R>) -> (res:
        &R::Descriptor)
        requires
            R::spec_store(self.spec_graph()).wf(),
            lookup(R::spec_store(self.spec_graph()).current(), resource.id.index) matches
                Some(meta) && meta.descriptor is Some,
        ensures
            Some(*res) == lookup(
                R::spec_store(self.spec_graph()).current(),
                resource.id.index,
            ).unwrap().descriptor,
    {
        match self.get_descriptor_of(resource) {
            Some(descriptor) => descriptor,
            None => vstd::pervasive::unreached(),
        }
    }

    /// Marks a declared resource to survive the coming frame boundary under
    /// `label`. A later mark for the same slot or label silently replaces
    /// the earlier one.
    pub fn mark_retain<R: RetainedRenderResource>(
        &mut self,
        label: crate::resource::InternedRenderLabel,
        resource: RenderHandle<R>,
    )
        requires
            old(self).spec_graph().phase == GraphPhase::Building,
        ensures
            R::spec_store(final(self).spec_graph()).to_save() == R::spec_store(
                old(self).spec_graph(),
            ).to_save().push((resource.id.index, label)),
            R::spec_store(final(self).spec_graph()).current() == R::spec_store(
                old(self).spec_graph(),
            ).current(),
            R::spec_store(final(self).spec_graph()).queued() == R::spec_store(
                old(self).spec_graph(),
            ).queued(),
            R::spec_store(final(self).spec_graph()).last_frame() == R::spec_store(
                old(self).spec_graph(),
            ).last_frame(),
            final(self).spec_graph().next_id == old(self).spec_graph().next_id,
            final(self).spec_graph().phase == old(self).spec_graph().phase,
            final(self).spec_graph().bind_groups == old(self).spec_graph().bind_groups,
            exists|s: SimpleResourceStore<R>|
                final(self).spec_graph() == #[trigger] R::with_store(old(self).spec_graph(), s),
    {
        let store = R::get_store_mut(&mut self.graph);
        store.mark_retain(resource.id.index, label);
        proof {
            R::lemma_store_lens(old(self).spec_graph(), *final(store));
        }
    }

    /// Recovers the resource retained under `label` from the previous frame,
    /// if any: the carried-over data re-enters this frame's table under a
    /// fresh slot index, and the new handle is returned. On a cold start or
    /// a dropped label there is nothing to recover, and the caller falls
    /// back to fresh creation.
    pub fn get_retained<R: RetainedRenderResource>(
        &mut self,
        label: crate::resource::InternedRenderLabel,
    ) -> (res: Option<RenderHandle<R>>)
        requires
            old(self).spec_graph().phase == GraphPhase::Building,
            old(self).spec_graph().next_id < u16::MAX,
            R::spec_store(old(self).spec_graph()).wf(),
            R::spec_store(old(self).spec_graph()).keys_below(old(self).spec_graph().next_id as int),
        ensures
            R::spec_store(final(self).spec_graph()).last_frame() == crate::resource::without_label(
                R::spec_store(old(self).spec_graph()).last_frame(),
                label,
            ),
            R::spec_store(final(self).spec_graph()).to_save() == R::spec_store(
                old(self).spec_graph(),
            ).to_save(),
            final(self).spec_graph().phase == old(self).spec_graph().phase,
            final(self).spec_graph().bind_groups == old(self).spec_graph().bind_groups,
            match res {
                None => {
                    &&& lookup(R::spec_store(old(self).spec_graph()).last_frame(), label) is None
                    &&& final(self).spec_graph().next_id == old(self).spec_graph().next_id
                    &&& R::spec_store(final(self).spec_graph()).current() == R::spec_store(
                        old(self).spec_graph(),
                    ).current()
                    &&& R::spec_store(final(self).spec_graph()).queued() == R::spec_store(
                        old(self).spec_graph(),
                    ).queued()
                },
                Some(handle) => {
                    &&& lookup(
                        R::spec_store(old(self).spec_graph()).last_frame(),
                        label,
                    ) matches Some(meta)
                    &&& handle.id.index == old(self).spec_graph().next_id
                    &&& handle.id.generation == 0
                    &&& final(self).spec_graph().next_id == old(self).spec_graph().next_id + 1
                    &&& R::spec_store(final(self).spec_graph()).current() == R::spec_store(
                        old(self).spec_graph(),
                    ).current().push(
                        (
                            old(self).spec_graph().next_id,
                            lookup(
                                R::spec_store(old(self).spec_graph()).last_frame(),
                                label,
                            ).unwrap(),
                        ),
                    )
                    &&& R::spec_store(final(self).spec_graph()).queued() == R::spec_store(
                        old(self).spec_graph(),
                    ).queued()
                },
            },
            R::spec_store(final(self).spec_graph()).wf(),
            R::spec_store(final(self).spec_graph()).keys_below(
                final(self).spec_graph().next_id as int,
            ),
            exists|s: SimpleResourceStore<R>|
                final(self).spec_graph() == (RenderGraph {
                    next_id: final(self).spec_graph().next_id,
                    ..#[trigger] R::with_store(old(self).spec_graph(), s)
                }),
    {
        let store = R::get_store_mut(&mut self.graph);
        let taken = store.take_retained(label);
        let ghost store_after_take = *store;
        let ghost mid = self.graph;
        proof {
            R::lemma_store_lens(old(self).spec_graph(), store_after_take);
        }
        match taken {
            None => None,
            Some(meta) => {
                let index = self.graph.next_id;
                proof {
                    lemma_fresh_index(R::spec_store(self.graph), index);
                }
                let store = R::get_store_mut(&mut self.graph);
                store.insert(index, RenderResourceInit::Eager(meta));
                let ghost store_after = *final(store);
                let ghost mid2 = self.graph;
                self.graph.next_id = index + 1;
                proof {
                    R::lemma_store_lens(mid, store_after);
                    R::lemma_with_store_twice(
                        old(self).spec_graph(),
                        store_after_take,
                        store_after,
                    );
                    R::lemma_spec_store_of_stores(mid2, self.graph);
                }
                Some(RenderHandle::of_id(RenderResourceId { index, generation: 0 }))
            }
        }
    }

    /// Registers a bind group under a fresh handle. Dependency sets track it
    /// by that identity.
    pub fn new_bind_group(&mut self, desc: RenderBindGroupDescriptor) -> (group: RenderBindGroup)
        requires
            old(self).spec_graph().phase == GraphPhase::Building,
            old(self).spec_graph().bind_groups.wf(),
            old(self).spec_graph().bind_groups.spec_next_id() < u32::MAX,
        ensures
            final(self).spec_graph().bind_groups.wf(),
            group.id == old(self).spec_graph().bind_groups.spec_next_id(),
            final(self).spec_graph().bind_groups.entries() == old(
                self,
            ).spec_graph().bind_groups.entries().push((group.id, desc)),
            final(self).spec_graph().textures == old(self).spec_graph().textures,
            final(self).spec_graph().buffers == old(self).spec_graph().buffers,
            final(self).spec_graph().next_id == old(self).spec_graph().next_id,
            final(self).spec_graph().phase == old(self).spec_graph().phase,
    {
        self.graph.bind_groups.register(desc)
    }
}

/// Why a node's resolution failed. An undeclared access is an authorship
/// error: the node declared a smaller footprint than it uses, which would
/// defeat any scheduling built on the dependency sets.
#[derive(Copy, Clone, PartialEq, Eq, Structural, Debug)]
pub enum NodeContextError {
    /// The handle or bind group is not in the node's declared dependencies.
    /// Access control is independent of whether the resource exists.
    UndeclaredDependency,
    /// The dependency is declared, but no realized resource stands at its
    /// slot this frame: the slot is still queued, was never declared, or its
    /// data does not resolve to a resource of the requested kind.
    ResourceNotRealized,
    /// The dependency is declared, but no bind group is registered under it.
    UnknownBindGroup,
}

/// The run-time handle passed into a node: it resolves declared resource ids
/// to their realized data, and refuses everything the node did not declare.
pub struct NodeContext<'a> {
    graph: &'a RenderGraph,
    dependencies: RenderDependencies,
}

impl<'a> NodeContext<'a> {
    /// The graph the node executes against.
    pub closed spec fn spec_graph(self) -> RenderGraph {
        *self.graph
    }

    /// The node's declared dependency set, immutable for the node's whole
    /// execution.
    pub closed spec fn spec_dependencies(self) -> RenderDependencies {
        self.dependencies
    }

    /// A context for one node, restricted to its declared dependencies.
    /// Nodes run only while the graph is executing: after every queued
    /// resource was realized and before the frame is reset.
    pub fn new(graph: &'a RenderGraph, dependencies: RenderDependencies) -> (ctx: Self)
        requires
            graph.phase == GraphPhase::Executing,
        ensures
            ctx.spec_graph() == *graph,
            ctx.spec_dependencies() == dependencies,
    {
        NodeContext { graph, dependencies }
    }

    /// Resolves a handle to its realized resource. A handle the node did not
    /// declare is refused outright, whether or not the store holds it; a
    /// declared handle resolves to the realized data at its slot, and fails
    /// only if no realized resource stands there.
    pub fn get<R: RenderResource>(&self, resource: RenderHandle<R>) -> (res: Result<
        &'a R,
        NodeContextError,
    >)
        requires
            R::spec_store(self.spec_graph()).wf(),
        ensures
            !self.spec_dependencies().spec_contains_resource(resource.id) ==> (res matches Err(e)
                && e == NodeContextError::UndeclaredDependency),
            self.spec_dependencies().spec_contains_resource(resource.id) ==> match res {
                Ok(r) => {
                    &&& lookup(
                        R::spec_store(self.spec_graph()).current(),
                        resource.id.index,
                    ) matches Some(meta)
                    &&& R::spec_from_data(meta.resource) == Some(*r)
                },
                Err(e) => {
                    &&& e == NodeContextError::ResourceNotRealized
                    &&& match lookup(
                        R::spec_store(self.spec_graph()).current(),
                        resource.id.index,
                    ) {
                        Some(meta) => R::spec_from_data(meta.resource) is None,
                        None => true,
                    }
                },
            },
    {
        if !self.dependencies.contains_resource(resource) {
            return Err(NodeContextError::UndeclaredDependency);
        }
        let store = R::get_store(self.graph);
        match store.get(resource.id.index) {
            Some(meta) => match R::from_data(&meta.resource) {
                Some(r) => Ok(r),
                None => Err(NodeContextError::ResourceNotRealized),
            },
            None => Err(NodeContextError::ResourceNotRealized),
        }
    }

    /// Resolves a bind group under the same access-control discipline as
    /// [`NodeContext::get`]: undeclared bind groups are refused outright.
    pub fn get_bind_group(&self, bind_group: RenderBindGroup) -> (res: Result<
        &'a RenderBindGroupDescriptor,
        NodeContextError,
    >)
        requires
            self.spec_graph().bind_groups.wf(),
        ensures
            !self.spec_dependencies().spec_contains_bind_group(bind_group) ==> (res matches Err(e)
                && e == NodeContextError::UndeclaredDependency),
            self.spec_dependencies().spec_contains_bind_group(bind_group) ==> match res {
                Ok(desc) => lookup(self.spec_graph().bind_groups.entries(), bind_group.id)
                    == Some(*desc),
                Err(e) => {
                    &&& e == NodeContextError::UnknownBindGroup
                    &&& lookup(self.spec_graph().bind_groups.entries(), bind_group.id) is None
                },
            },
    {
        if !self.dependencies.contains_bind_group(bind_group) {
            return Err(NodeContextError::UndeclaredDependency);
        }
        match self.graph.bind_groups.get(bind_group) {
            Some(desc) => Ok(desc),
            None => Err(NodeContextError::UnknownBindGroup),
        }
    }
}

/// A store whose taken indices all lie below a bound does not contain that
/// bound as an index.
proof fn lemma_fresh_index<R: RenderResource>(store: SimpleResourceStore<R>, index: u16)
    requires
        store.keys_below(index as int),
    ensures
        !store.contains_index(index),
{
    crate::keyed::lemma_lookup_none_of_absent(store.current(), index);
    crate::keyed::lemma_lookup_none_of_absent(store.queued(), index);
}

} // verus!
