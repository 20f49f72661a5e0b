//! Render-layer allocation.
//!
//! A render layer is an opaque integer tag partitioning scene objects, so an
//! off-screen camera renders only the objects of its module. Layer 0 is
//! reserved for the host's primary view; allocation starts at 1 and is
//! strictly increasing. Layers are never reclaimed on despawn: layer space is
//! a strictly growing resource, bounded by the platform's maximum
//! simultaneous render-layer count.

use vstd::prelude::*;
use crate::events::SpawnError;

verus! {

/// Hands out unique render-layer identifiers, monotonically increasing
/// starting at 1.
pub struct LayerAllocator {
    next: u32,
    limit: u32,
}

impl LayerAllocator {
    /// The identifier the next successful allocation will return.
    pub closed spec fn next_layer(self) -> int {
        self.next as int
    }

    /// The largest identifier this allocator may ever hand out (the
    /// platform's maximum simultaneous render-layer count).
    pub closed spec fn limit(self) -> int {
        self.limit as int
    }

    /// The allocator never returns to 0 and never passes its limit by more
    /// than the one step that makes it full.
    pub closed spec fn wf(self) -> bool {
        &&& 1 <= self.next as int <= self.limit as int + 1
        &&& self.limit < u32::MAX
    }

    /// The counter stays within machine range: between 1 and one past the
    /// limit, which itself fits a `u32`.
    pub proof fn lemma_bounds(self)
        requires
            self.wf(),
        ensures
            1 <= self.next_layer() <= self.limit() + 1,
            self.limit() + 1 <= u32::MAX,
    {
    }

    /// A fresh allocator whose first allocation returns 1.
    pub fn new(limit: u32) -> (r: LayerAllocator)
        requires
            1 <= limit < u32::MAX,
        ensures
            r.wf(),
            r.next_layer() == 1,
            r.limit() == limit,
    {
        LayerAllocator { next: 1, limit }
    }

    /// Hands out the next identifier, or reports `LayersExhausted` once the
    /// counter would exceed the limit; on failure nothing changes.
    pub fn allocate(&mut self) -> (r: Result<u32, SpawnError>)
        requires
            old(self).wf(),
        ensures
            final(self).wf(),
            final(self).limit() == old(self).limit(),
            old(self).next_layer() <= old(self).limit() ==> {
                &&& r is Ok
                &&& final(self).next_layer() == old(self).next_layer() + 1
            },
            r matches Ok(l) ==> l == old(self).next_layer(),
            old(self).next_layer() > old(self).limit() ==> {
                &&& r == Err::<u32, SpawnError>(SpawnError::LayersExhausted)
                &&& *final(self) == *old(self)
            },
    {
        if self.next <= self.limit {
            let layer: u32 = self.next;
            self.next = self.next + 1;
            Ok(layer)
        } else {
            Err(SpawnError::LayersExhausted)
        }
    }
}

} // verus!
