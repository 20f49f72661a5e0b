//! The value messages exchanged between the compositor core and the host
//! application, and the error kinds the core reports.
//!
//! Every event is a transient value, consumed at most once per emission; none
//! of them is owned state.

use vstd::prelude::*;

verus! {

/// The kind of content a module displays. Immutable once a module is spawned.
#[derive(Clone, Copy, PartialEq, Eq, Structural, Debug, Hash)]
pub enum ModuleClass {
    Pong,
    Noise,
}

/// Input event: ask the spawn coordinator to create one module of `class`.
#[derive(Clone, Copy, PartialEq, Eq, Structural, Debug)]
pub struct SpawnRequest {
    pub class: ModuleClass,
}

/// Output event: one module was spawned; consumed by content builders, which
/// tag everything they create with `layer` so it renders only into that
/// module's target.
#[derive(Clone, Copy, PartialEq, Eq, Structural, Debug)]
pub struct SpawnNotification {
    pub module_id: u64,
    pub class: ModuleClass,
    pub layer: u32,
}

/// One planned delivery of a [`SpawnNotification`] to one registered builder.
#[derive(Clone, Copy, PartialEq, Eq, Structural, Debug)]
pub struct BuilderCall {
    pub builder_id: u64,
    pub notification: SpawnNotification,
}

/// Bidirectional event: emitted by the panel driver when the user changed a
/// panel's size, consumed by the resize coordinator. Dimensions are whole
/// pixels and always positive.
#[derive(Clone, Copy, PartialEq, Eq, Structural, Debug)]
pub struct ResizeRequest {
    pub module_id: u64,
    pub width: u32,
    pub height: u32,
}

/// Do all requests in `reqs` carry positive dimensions? Every request the
/// panel driver emits does, so the invariant that no module is ever zero-
/// sized survives the queue.
pub open spec fn positive_requests(reqs: Seq<ResizeRequest>) -> bool {
    forall|j: int| 0 <= j < reqs.len()
        ==> (#[trigger] reqs[j]).width > 0 && reqs[j].height > 0
}

/// Output event: one dependent content object of a resized module must
/// rescale itself to the new dimensions.
#[derive(Clone, Copy, PartialEq, Eq, Structural, Debug)]
pub struct ContentRescale {
    pub module_id: u64,
    pub content_id: u64,
    pub width: u32,
    pub height: u32,
}

/// Why a spawn request failed. A failed spawn leaves no partial module
/// behind.
#[derive(Clone, Copy, PartialEq, Eq, Structural, Debug)]
pub enum SpawnError {
    /// The layer allocator would exceed the platform's maximum simultaneous
    /// render-layer count. Fatal to the requesting spawn only.
    LayersExhausted,
}

/// Why a render-target operation failed.
#[derive(Clone, Copy, PartialEq, Eq, Structural, Debug)]
pub enum TargetError {
    /// The handle refers to a target that was already freed, or was never
    /// created by this store: a programming-level invariant violation.
    StaleHandle,
}

/// The per-request spawn state machine. `Ready` and `Failed` are terminal.
#[derive(Clone, Copy, PartialEq, Eq, Structural, Debug)]
pub enum SpawnStatus {
    Requested,
    Allocating,
    Dispatching,
    Ready,
    Failed,
}

} // verus!
