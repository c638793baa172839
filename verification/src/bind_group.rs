//! Bind groups: opaque handles to bound-resource-set descriptions, tracked by
//! identity within dependency sets and registered with the graph.

use vstd::prelude::*;

use crate::keyed::{distinct_keys, lookup};
use crate::keyed::{lemma_lookup_at, lemma_lookup_none_of_absent, lemma_push_distinct};
use crate::RenderResourceId;

verus! {

/// A handle to a bind group layout created by the device.
#[derive(Copy, Clone, PartialEq, Eq, Hash, Structural, Debug)]
pub struct BindGroupLayoutId {
    pub value: u32,
}

/// A handle to a sampler created by the device.
#[derive(Copy, Clone, PartialEq, Eq, Hash, Structural, Debug)]
pub struct SamplerId {
    pub value: u32,
}

/// Which pipeline stages see a binding.
#[derive(Copy, Clone, PartialEq, Eq, Hash, Structural, Debug)]
pub enum ShaderStages {
    Vertex,
    Fragment,
    Compute,
}

/// What kind of resource a layout slot binds.
#[derive(Copy, Clone, PartialEq, Eq, Hash, Structural, Debug)]
pub enum BindingType {
    /// A sampled two-dimensional float texture.
    Texture { filterable: bool },
    /// A filtering sampler.
    Sampler,
    /// A uniform buffer, possibly bound at a dynamic offset.
    UniformBuffer { has_dynamic_offset: bool },
}

/// One slot of a bind group layout.
#[derive(Copy, Clone, PartialEq, Eq, Hash, Structural, Debug)]
pub struct BindGroupLayoutEntry {
    pub binding: u32,
    pub visibility: ShaderStages,
    pub ty: BindingType,
}

/// An opaque handle to a bound-resource-set description. Dependency sets
/// track bind groups by this identity, not by content.
#[derive(Copy, Clone, PartialEq, Eq, Hash, Structural, Debug)]
pub struct RenderBindGroup {
    pub id: u32,
}

/// What a bind group binds: a layout and the resource slots bound under it.
pub struct RenderBindGroupDescriptor {
    pub layout: BindGroupLayoutId,
    pub entries: Vec<RenderResourceId>,
}

/// The graph's bind-group registry: descriptors keyed by handle id, with a
/// monotonically increasing id allocator.
pub struct BindGroupStore {
    next_id: u32,
    groups: Vec<(u32, RenderBindGroupDescriptor)>,
}

impl BindGroupStore {
    /// The registered bind groups, keyed by handle id.
    pub closed spec fn entries(self) -> Seq<(u32, RenderBindGroupDescriptor)> {
        self.groups@
    }

    /// The id the next registration will take.
    pub closed spec fn spec_next_id(self) -> u32 {
        self.next_id
    }

    /// Handle ids are pairwise distinct and below the allocator's next value.
    pub open spec fn wf(self) -> bool {
        &&& distinct_keys(self.entries())
        &&& forall|i: int|
            0 <= i < self.entries().len() ==> self.entries()[i].0 < self.spec_next_id()
    }

    /// An empty registry.
    pub fn new() -> (store: Self)
        ensures
            store.wf(),
            store.entries() == Seq::<(u32, RenderBindGroupDescriptor)>::empty(),
            store.spec_next_id() == 0,
    {
        BindGroupStore { next_id: 0, groups: Vec::new() }
    }

    /// Registers a descriptor under a fresh handle.
    pub fn register(&mut self, desc: RenderBindGroupDescriptor) -> (group: RenderBindGroup)
        requires
            old(self).wf(),
            old(self).spec_next_id() < u32::MAX,
        ensures
            final(self).wf(),
            group.id == old(self).spec_next_id(),
            final(self).entries() == old(self).entries().push((group.id, desc)),
            final(self).spec_next_id() == old(self).spec_next_id() + 1,
    {
        let id = self.next_id;
        proof {
            lemma_lookup_none_of_absent(self.entries(), id);
            lemma_push_distinct(self.entries(), id, desc);
        }
        self.groups.push((id, desc));
        self.next_id = id + 1;
        RenderBindGroup { id }
    }

    /// The descriptor registered under a handle, if the handle is known.
    pub fn get(&self, group: RenderBindGroup) -> (res: Option<&RenderBindGroupDescriptor>)
        requires
            self.wf(),
        ensures
            match res {
                Some(desc) => lookup(self.entries(), group.id) == Some(*desc),
                None => lookup(self.entries(), group.id) is None,
            },
    {
        let n = self.groups.len();
        let mut i: usize = 0;
        while i < n
            invariant
                self.wf(),
                n == self.entries().len(),
                i <= n,
                forall|j: int| 0 <= j < i ==> self.entries()[j].0 != group.id,
            decreases n - i,
        {
            let entry = &self.groups[i];
            if entry.0 == group.id {
                proof {
                    lemma_lookup_at(self.entries(), i as int);
                }
                return Some(&entry.1);
            }
            i += 1;
        }
        proof {
            lemma_lookup_none_of_absent(self.entries(), group.id);
        }
        None
    }
}

} // verus!
