//! A frame-graph style resource-lifecycle and dependency-tracking layer.
//!
//! A render graph owns one store per resource kind. During a frame, resources
//! are declared either eagerly (data in hand) or deferred (realized later,
//! once device access is available), nodes declare up front which resources
//! they read, write, or bind, and every access at execution time is checked
//! against that declaration. At the frame boundary, resources marked for
//! retention are carried over under a stable label; everything else is
//! dropped.

use vstd::prelude::*;

pub mod bind_group;
pub mod bloom;
pub mod buffer;
pub mod dependency;
pub mod graph;
pub mod keyed;
pub mod pipeline;
pub mod resource;
pub mod texture;

verus! {

/// A generational identifier for a slot in a per-kind resource table.
///
/// `index` names the slot; `generation` advances every time the resource is
/// declared as a write target, so that a handle distinguishes the pre-write
/// and post-write versions of the same slot.
#[derive(Copy, Clone, PartialEq, Eq, Hash, Structural, Debug)]
pub struct RenderResourceId {
    pub index: u16,
    pub generation: u16,
}

} // verus!

