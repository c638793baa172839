//! The texture resource kind.

use vstd::prelude::*;

use crate::graph::RenderGraph;
use crate::resource::{
    RenderResource, RetainedRenderResource, SimpleResourceStore, WriteRenderResource,
};

verus! {

/// A texel layout the device understands.
#[derive(Copy, Clone, PartialEq, Eq, Hash, Structural, Debug)]
pub enum TextureFormat {
    Rgba8UnormSrgb,
    Rgba16Float,
    Rg11b10UFloat,
    Depth32Float,
}

/// The declarative description of a texture: its extent and format.
#[derive(Copy, Clone, PartialEq, Eq, Hash, Structural, Debug)]
pub struct TextureDescriptor {
    pub width: u32,
    pub height: u32,
    pub format: TextureFormat,
}

/// How a sampler interpolates between texels.
#[derive(Copy, Clone, PartialEq, Eq, Hash, Structural, Debug)]
pub enum FilterMode {
    Nearest,
    Linear,
}

/// What a sampler does with coordinates outside the texture.
#[derive(Copy, Clone, PartialEq, Eq, Hash, Structural, Debug)]
pub enum AddressMode {
    ClampToEdge,
    Repeat,
}

/// The declarative description of a sampler.
#[derive(Copy, Clone, PartialEq, Eq, Hash, Structural, Debug)]
pub struct SamplerDescriptor {
    pub min_filter: FilterMode,
    pub mag_filter: FilterMode,
    pub address_mode_u: AddressMode,
    pub address_mode_v: AddressMode,
}

impl Default for SamplerDescriptor {
    /// Nearest filtering, clamped addressing.
    fn default() -> (res: Self)
        ensures
            res == (SamplerDescriptor {
                min_filter: FilterMode::Nearest,
                mag_filter: FilterMode::Nearest,
                address_mode_u: AddressMode::ClampToEdge,
                address_mode_v: AddressMode::ClampToEdge,
            }),
    {
        SamplerDescriptor {
            min_filter: FilterMode::Nearest,
            mag_filter: FilterMode::Nearest,
            address_mode_u: AddressMode::ClampToEdge,
            address_mode_v: AddressMode::ClampToEdge,
        }
    }
}

/// A token for a texture the device has created.
#[derive(Copy, Clone, PartialEq, Eq, Hash, Structural, Debug)]
pub struct Texture {
    pub id: u64,
}

impl RenderResource for Texture {
    type Descriptor = TextureDescriptor;

    type Data = Texture;

    open spec fn spec_store(graph: RenderGraph) -> SimpleResourceStore<Texture> {
        graph.textures
    }

    open spec fn with_store(graph: RenderGraph, store: SimpleResourceStore<Texture>) -> RenderGraph {
        RenderGraph { textures: store, ..graph }
    }

    open spec fn spec_from_data(data: Texture) -> Option<Texture> {
        Some(data)
    }

    proof fn lemma_store_lens(graph: RenderGraph, store: SimpleResourceStore<Texture>) {
    }

    proof fn lemma_with_store_twice(
        graph: RenderGraph,
        s1: SimpleResourceStore<Texture>,
        s2: SimpleResourceStore<Texture>,
    ) {
    }

    proof fn lemma_spec_store_of_stores(g1: RenderGraph, g2: RenderGraph) {
    }

    fn get_store(graph: &RenderGraph) -> (store: &SimpleResourceStore<Texture>) {
        &graph.textures
    }

    fn get_store_mut(graph: &mut RenderGraph) -> (store: &mut SimpleResourceStore<Texture>) {
        &mut graph.textures
    }

    fn from_data(data: &Texture) -> (res: Option<&Texture>) {
        Some(data)
    }
}

impl WriteRenderResource for Texture {

}

impl RetainedRenderResource for Texture {

}

} // verus!
