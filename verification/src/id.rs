//! Typed, generation-counted resource identifiers.
//!
//! Every GPU-side object is named by a [`ResourceId`]: a slot index into a
//! registry, a generation counter that distinguishes reuses of the same slot,
//! and the tag of the backend the resource was created on. Two identifiers
//! denote the same resource exactly when all three parts match.

use vstd::prelude::*;

verus! {

/// A native graphics backend an identifier can be tagged with.
#[derive(Clone, Copy, Debug, PartialEq, Eq, Structural, Hash)]
pub enum Backend {
    Empty,
    Vulkan,
    Metal,
    Dx12,
    Dx11,
}

/// An opaque identifier for one GPU-side resource.
///
/// Identifiers are immutable once issued and may be copied freely; whether
/// their referent is still alive is the registry's business, not theirs.
/// Equality holds exactly when index, generation and backend all match.
#[derive(Clone, Copy, Debug, PartialEq, Eq, Structural, Hash)]
pub struct ResourceId {
    /// Slot index in the issuing registry.
    pub index: usize,
    /// Generation of the slot at the time this identifier was issued.
    pub generation: u64,
    /// Backend the resource was created on.
    pub backend: Backend,
}

impl ResourceId {
    /// Builds the identifier for a given slot, generation and backend.
    pub fn new(index: usize, generation: u64, backend: Backend) -> (r: ResourceId)
        ensures
            r.index == index,
            r.generation == generation,
            r.backend == backend,
    {
        ResourceId { index, generation, backend }
    }
}

} // verus!
