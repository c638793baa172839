//! The buffer resource kind.

use vstd::prelude::*;

use crate::graph::RenderGraph;
use crate::resource::{
    RenderResource, RetainedRenderResource, SimpleResourceStore, WriteRenderResource,
};

verus! {

/// What a buffer is bound as.
#[derive(Copy, Clone, PartialEq, Eq, Hash, Structural, Debug)]
pub enum BufferUsage {
    Uniform,
    Storage,
    Vertex,
    Index,
}

/// The declarative description of a buffer: its size in bytes and its usage.
#[derive(Copy, Clone, PartialEq, Eq, Hash, Structural, Debug)]
pub struct BufferDescriptor {
    pub size: u64,
    pub usage: BufferUsage,
}

/// A token for a buffer the device has created.
#[derive(Copy, Clone, PartialEq, Eq, Hash, Structural, Debug)]
pub struct Buffer {
    pub id: u64,
}

impl RenderResource for Buffer {
    type Descriptor = BufferDescriptor;

    type Data = Buffer;

    open spec fn spec_store(graph: RenderGraph) -> SimpleResourceStore<Buffer> {
        graph.buffers
    }

    open spec fn with_store(graph: RenderGraph, store: SimpleResourceStore<Buffer>) -> RenderGraph {
        RenderGraph { buffers: store, ..graph }
    }

    open spec fn spec_from_data(data: Buffer) -> Option<Buffer> {
        Some(data)
    }

    proof fn lemma_store_lens(graph: RenderGraph, store: SimpleResourceStore<Buffer>) {
    }

    proof fn lemma_with_store_twice(
        graph: RenderGraph,
        s1: SimpleResourceStore<Buffer>,
        s2: SimpleResourceStore<Buffer>,
    ) {
    }

    proof fn lemma_spec_store_of_stores(g1: RenderGraph, g2: RenderGraph) {
    }

    fn get_store(graph: &RenderGraph) -> (store: &SimpleResourceStore<Buffer>) {
        &graph.buffers
    }

    fn get_store_mut(graph: &mut RenderGraph) -> (store: &mut SimpleResourceStore<Buffer>) {
        &mut graph.buffers
    }

    fn from_data(data: &Buffer) -> (res: Option<&Buffer>) {
        Some(data)
    }
}

impl WriteRenderResource for Buffer {

}

impl RetainedRenderResource for Buffer {

}

} // verus!
