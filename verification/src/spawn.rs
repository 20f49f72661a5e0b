//! The spawn coordinator.
//!
//! One spawn request runs the state machine `Requested → Allocating →
//! Dispatching → Ready`, or `Requested → Failed` on layer exhaustion. The
//! coordinator creates the render target at the configured default size,
//! allocates a layer, writes the module window, and plans the fan-out to the
//! registered content builders. The host then runs the builder callbacks and
//! reports their outcomes back; a failing builder never affects its siblings
//! nor the module's `Ready` state, so a module may render with some content
//! missing. A failed spawn leaves no partial module behind.

use vstd::prelude::*;
use crate::events::{BuilderCall, SpawnError, SpawnRequest, SpawnStatus};
use crate::layer::LayerAllocator;
use crate::registry::{builders_for, ModuleRegistry};
use crate::target::{Color8, PixelFormat, RenderTarget, RenderTargetStore, TargetHandle, UsageFlags};
use crate::window::{contains_id, WindowTable};

verus! {

/// Configuration of the spawn coordinator: the default size and texture
/// parameters of a fresh module's render target. Inputs, not hardcoded
/// constants, so the coordinator stays reusable across module kinds.
#[derive(Clone, Copy, PartialEq, Eq, Structural, Debug)]
pub struct SpawnConfig {
    pub default_width: u32,
    pub default_height: u32,
    pub format: PixelFormat,
    pub fill: Color8,
}

impl SpawnConfig {
    /// Default dimensions must be positive pixels.
    pub open spec fn wf(self) -> bool {
        self.default_width > 0 && self.default_height > 0
    }
}

/// What a successful spawn produced, handed to the host while the spawn is
/// in its `Dispatching` stage: the new module's identity and the planned
/// builder calls. The host runs the callbacks and closes the state machine
/// with [`finish_spawn`].
pub struct SpawnTicket {
    pub module_id: u64,
    pub layer: u32,
    pub target: TargetHandle,
    pub calls: Vec<BuilderCall>,
    pub status: SpawnStatus,
}

/// The terminal report of one spawn: the module reached `Ready`, and
/// `failed` lists the builders whose callback failed, in call order.
pub struct SpawnReport {
    pub module_id: u64,
    pub status: SpawnStatus,
    pub failed: Vec<u64>,
}

/// The builder ids among `calls` whose outcome is `false`, in call order.
pub open spec fn failed_builders(calls: Seq<BuilderCall>, outcomes: Seq<bool>) -> Seq<u64>
    decreases calls.len(),
{
    if calls.len() == 0 || outcomes.len() == 0 {
        Seq::empty()
    } else {
        let prefix = failed_builders(calls.drop_last(), outcomes.drop_last());
        if outcomes.last() {
            prefix
        } else {
            prefix.push(calls.last().builder_id)
        }
    }
}

/// Processes one spawn request.
///
/// On success: the store holds one fresh target of the configured default
/// size (a render destination and a sampled texture, cleared to the
/// configured fill), the allocator has handed out one new layer, the table
/// has exactly one new window — the new module, at the default size, placed
/// at the origin — and the ticket carries one builder call per builder
/// registered for the class, in registration order.
///
/// On `LayersExhausted`: the table and the allocator are untouched and every
/// store handle keeps exactly the meaning it had, so no partial module is
/// left behind.
pub fn process_spawn(
    config: SpawnConfig,
    layers: &mut LayerAllocator,
    store: &mut RenderTargetStore,
    table: &mut WindowTable,
    registry: &ModuleRegistry,
    req: SpawnRequest,
) -> (r: Result<SpawnTicket, SpawnError>)
    requires
        config.wf(),
        old(layers).wf(),
        old(table).wf(),
        old(table).next_module_id() < u64::MAX,
    ensures
        final(layers).wf(),
        final(table).wf(),
        final(layers).limit() == old(layers).limit(),
        old(layers).next_layer() <= old(layers).limit() ==> r is Ok,
        r matches Ok(t) ==> ({
                &&& old(layers).next_layer() <= old(layers).limit()
                &&& t.module_id == old(table).next_module_id()
                &&& !contains_id(old(table)@, t.module_id)
                &&& t.layer == old(layers).next_layer()
                &&& t.status == SpawnStatus::Dispatching
                &&& t.calls@.len() == builders_for(registry.registrations(), req.class).len()
                &&& forall|k: int| 0 <= k < t.calls@.len() ==> t.calls@[k] == (BuilderCall {
                    builder_id: builders_for(registry.registrations(), req.class)[k],
                    notification: crate::events::SpawnNotification {
                        module_id: t.module_id,
                        class: req.class,
                        layer: t.layer,
                    },
                })
                &&& final(layers).next_layer() == old(layers).next_layer() + 1
                &&& !old(store).valid(t.target)
                &&& final(store).valid(t.target)
                &&& final(store).target(t.target) == (RenderTarget {
                    width: config.default_width,
                    height: config.default_height,
                    format: config.format,
                    usage: UsageFlags {
                        texture_binding: true,
                        copy_dst: true,
                        render_attachment: true,
                    },
                    fill: config.fill,
                })
                &&& forall|h: TargetHandle| old(store).valid(h)
                    ==> final(store).valid(h) && final(store).target(h) == old(store).target(h)
                &&& forall|h: TargetHandle| h != t.target && !old(store).valid(h)
                    ==> !final(store).valid(h)
                &&& final(table).next_module_id() == old(table).next_module_id() + 1
                &&& final(table)@.len() == old(table)@.len() + 1
                &&& forall|k: int| 0 <= k < old(table)@.len()
                    ==> final(table)@[k] == old(table)@[k]
                &&& final(table)@.last().id == t.module_id
                &&& final(table)@.last().class == req.class
                &&& final(table)@.last().target == t.target
                &&& final(table)@.last().layer == t.layer
                &&& final(table)@.last().width == config.default_width
                &&& final(table)@.last().height == config.default_height
                &&& final(table)@.last().pos_x == 0
                &&& final(table)@.last().pos_y == 0
                &&& final(table)@.last().dependents@ == Seq::<u64>::empty()
        }),
        old(layers).next_layer() > old(layers).limit() ==> ({
            &&& r matches Err(e) && e == SpawnError::LayersExhausted
            &&& *final(table) == *old(table)
            &&& *final(layers) == *old(layers)
            &&& forall|h: TargetHandle| final(store).valid(h) == old(store).valid(h)
            &&& forall|h: TargetHandle| old(store).valid(h)
                ==> final(store).target(h) == old(store).target(h)
        }),
{
    let target = store.create(config.default_width, config.default_height, config.format, config.fill);
    let layer: u32 = match layers.allocate() {
        Ok(layer) => layer,
        Err(e) => {
            // Roll the fresh target back, so the failed spawn leaves no
            // partial module behind.
            let _ = store.free(target);
            return Err(e);
        },
    };
    let module_id = table.insert(
        req.class,
        target,
        layer,
        config.default_width,
        config.default_height,
    );
    let calls = registry.dispatch(module_id, req.class, layer);
    Ok(SpawnTicket { module_id, layer, target, calls, status: SpawnStatus::Dispatching })
}

/// Closes one spawn's state machine after the host ran the planned builder
/// callbacks, `outcomes[k]` telling whether call `k` succeeded. Builder
/// failures are isolated: they are reported in the terminal record, but the
/// module reaches `Ready` whatever the outcomes were.
pub fn finish_spawn(ticket: SpawnTicket, outcomes: &Vec<bool>) -> (r: SpawnReport)
    requires
        ticket.status == SpawnStatus::Dispatching,
        outcomes@.len() == ticket.calls@.len(),
    ensures
        r.module_id == ticket.module_id,
        r.status == SpawnStatus::Ready,
        r.failed@ == failed_builders(ticket.calls@, outcomes@),
{
    let mut failed: Vec<u64> = Vec::new();
    let mut i: usize = 0;
    let n: usize = ticket.calls.len();
    while i < n
        invariant
            n == ticket.calls@.len(),
            outcomes@.len() == ticket.calls@.len(),
            i <= n,
            failed@ == failed_builders(ticket.calls@.take(i as int), outcomes@.take(i as int)),
        decreases n - i,
    {
        proof {
            assert(ticket.calls@.take(i + 1).drop_last() =~= ticket.calls@.take(i as int));
            assert(outcomes@.take(i + 1).drop_last() =~= outcomes@.take(i as int));
            assert(ticket.calls@.take(i + 1).last() == ticket.calls@[i as int]);
            assert(outcomes@.take(i + 1).last() == outcomes@[i as int]);
        }
        if !outcomes[i] {
            failed.push(ticket.calls[i].builder_id);
        }
        i = i + 1;
    }
    proof {
        assert(ticket.calls@.take(n as int) =~= ticket.calls@);
        assert(outcomes@.take(n as int) =~= outcomes@);
    }
    SpawnReport { module_id: ticket.module_id, status: SpawnStatus::Ready, failed }
}

} // verus!
