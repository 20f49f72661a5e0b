//! The compositor facade: one value owning the layer allocator, the
//! render-target store, the builder registry, the window table, and the
//! queue of pending resize requests, with the system invariant that ties
//! them together.
//!
//! Frames are strictly ordered and single-threaded: first pending spawn
//! requests are processed, then pending resize requests, then the panel
//! driver runs — which queues resize requests for the *next* frame, so a
//! request observed in a frame is never applied and re-observed within the
//! same frame. The host drives the phases, performs the GPU and UI work,
//! and runs the builder callbacks; every decision in between is made here.

use vstd::prelude::*;
use crate::events::{ResizeRequest, SpawnError, SpawnRequest};
use crate::layer::LayerAllocator;
use crate::panel::{drive_panels, emitted_requests, world_x, world_y, PanelFloor, PanelRect};
use crate::registry::{builders_for, BuilderRegistration, ModuleRegistry};
use crate::resize::{process_resize, rescale_notices, ResizeOutcome};
use crate::spawn::{process_spawn, SpawnConfig, SpawnTicket};
use crate::target::{RenderTarget, RenderTargetStore, TargetHandle, UsageFlags};
use crate::window::{contains_id, index_of_id, ModuleWindow, WindowTable};

verus! {

/// The whole compositor. All mutation goes through its methods, and each
/// frame phase preserves [`Compositor::wf`]: every live module has a unique
/// nonzero layer, assigned in spawn order; sizes are positive; and each
/// module's texture dimensions equal its window's current size.
pub struct Compositor {
    config: SpawnConfig,
    floor: PanelFloor,
    layers: LayerAllocator,
    store: RenderTargetStore,
    registry: ModuleRegistry,
    table: WindowTable,
    pending: Vec<ResizeRequest>,
}

impl Compositor {
    /// The live module windows, in spawn order.
    pub closed spec fn windows(self) -> Seq<ModuleWindow> {
        self.table@
    }

    /// The resize requests queued for the next resize phase.
    pub closed spec fn pending(self) -> Seq<ResizeRequest> {
        self.pending@
    }

    /// Every builder registration made so far, oldest first.
    pub closed spec fn registrations(self) -> Seq<BuilderRegistration> {
        self.registry.registrations()
    }

    /// The layer the next successful spawn will get.
    pub closed spec fn next_layer(self) -> int {
        self.layers.next_layer()
    }

    /// The largest layer that can ever be handed out.
    pub closed spec fn layer_limit(self) -> int {
        self.layers.limit()
    }

    /// The id the next successful spawn will get.
    pub closed spec fn next_module_id(self) -> int {
        self.table.next_module_id()
    }

    /// The spawn configuration this compositor was built with.
    pub closed spec fn spawn_config(self) -> SpawnConfig {
        self.config
    }

    /// The panel floor this compositor was built with.
    pub closed spec fn panel_floor(self) -> PanelFloor {
        self.floor
    }

    /// Is `h` a live handle of the compositor's target store?
    pub closed spec fn target_valid(self, h: TargetHandle) -> bool {
        self.store.valid(h)
    }

    /// The attributes of the target behind `h` (meaningful when live).
    pub closed spec fn target_of(self, h: TargetHandle) -> RenderTarget {
        self.store.target(h)
    }

    /// The system invariant.
    pub closed spec fn wf(self) -> bool {
        &&& self.config.wf()
        &&& self.floor.wf()
        &&& self.layers.wf()
        &&& self.table.wf()
        &&& self.table.next_module_id() <= self.layers.next_layer()
        &&& forall|i: int| 0 <= i < self.windows().len()
            ==> #[trigger] self.windows()[i].layer >= 1
        &&& forall|i: int| 0 <= i < self.windows().len()
            ==> #[trigger] self.windows()[i].layer < self.layers.next_layer()
        &&& forall|i: int, j: int| 0 <= i < j < self.windows().len()
            ==> self.windows()[i].layer < self.windows()[j].layer
        &&& forall|i: int| 0 <= i < self.windows().len()
            ==> #[trigger] self.windows()[i].width > 0 && self.windows()[i].height > 0
        &&& forall|i: int| 0 <= i < self.windows().len()
            ==> self.store.valid(#[trigger] self.windows()[i].target)
        &&& forall|i: int| 0 <= i < self.windows().len()
            ==> self.store.target(#[trigger] self.windows()[i].target).width
                    == self.windows()[i].width
                && self.store.target(self.windows()[i].target).height
                    == self.windows()[i].height
        &&& forall|i: int, j: int| 0 <= i < j < self.windows().len()
            ==> self.windows()[i].target != self.windows()[j].target
        &&& crate::events::positive_requests(self.pending())
    }

    /// A fresh compositor with no modules, no registrations, and nothing
    /// pending; its first module will get layer 1 and id 1.
    pub fn new(config: SpawnConfig, floor: PanelFloor, layer_limit: u32) -> (r: Compositor)
        requires
            config.wf(),
            floor.wf(),
            1 <= layer_limit < u32::MAX,
        ensures
            r.wf(),
            r.windows() == Seq::<ModuleWindow>::empty(),
            r.pending() == Seq::<ResizeRequest>::empty(),
            r.registrations() == Seq::<BuilderRegistration>::empty(),
            r.next_layer() == 1,
            r.layer_limit() == layer_limit,
            r.next_module_id() == 1,
            r.spawn_config() == config,
            r.panel_floor() == floor,
    {
        Compositor {
            config,
            floor,
            layers: LayerAllocator::new(layer_limit),
            store: RenderTargetStore::new(),
            registry: ModuleRegistry::new(),
            table: WindowTable::new(),
            pending: Vec::new(),
        }
    }

    /// Registers one more content builder for `class`; nothing else
    /// changes.
    pub fn register_builder(&mut self, class: crate::events::ModuleClass, builder_id: u64)
        requires
            old(self).wf(),
        ensures
            final(self).wf(),
            final(self).registrations() == old(self).registrations().push(
                BuilderRegistration { class, builder_id },
            ),
            final(self).windows() == old(self).windows(),
            final(self).pending() == old(self).pending(),
            final(self).next_layer() == old(self).next_layer(),
            final(self).layer_limit() == old(self).layer_limit(),
            final(self).next_module_id() == old(self).next_module_id(),
            final(self).spawn_config() == old(self).spawn_config(),
            final(self).panel_floor() == old(self).panel_floor(),
    {
        self.registry.register(class, builder_id);
    }

    /// Spawn phase, one request: on success exactly one new module window
    /// is appended — fresh id, fresh layer, a fresh texture at the
    /// configured default size — and the ticket carries one builder call
    /// per builder registered for the class, in registration order. On
    /// `LayersExhausted` nothing is left behind.
    pub fn spawn(&mut self, req: SpawnRequest) -> (r: Result<SpawnTicket, SpawnError>)
        requires
            old(self).wf(),
        ensures
            final(self).wf(),
            final(self).registrations() == old(self).registrations(),
            final(self).pending() == old(self).pending(),
            final(self).layer_limit() == old(self).layer_limit(),
            final(self).spawn_config() == old(self).spawn_config(),
            final(self).panel_floor() == old(self).panel_floor(),
            old(self).next_layer() <= old(self).layer_limit() ==> r is Ok,
            old(self).next_layer() > old(self).layer_limit() ==> ({
                &&& r matches Err(e) && e == SpawnError::LayersExhausted
                &&& final(self).windows() == old(self).windows()
                &&& final(self).next_layer() == old(self).next_layer()
                &&& final(self).next_module_id() == old(self).next_module_id()
                &&& forall|h: TargetHandle|
                    final(self).target_valid(h) == old(self).target_valid(h)
            }),
            r matches Ok(t) ==> ({
                &&& t.module_id == old(self).next_module_id()
                &&& t.layer == old(self).next_layer()
                &&& t.status == crate::events::SpawnStatus::Dispatching
                &&& t.calls@.len()
                    == builders_for(old(self).registrations(), req.class).len()
                &&& forall|k: int| 0 <= k < t.calls@.len()
                    ==> t.calls@[k] == (crate::events::BuilderCall {
                        builder_id: builders_for(old(self).registrations(), req.class)[k],
                        notification: crate::events::SpawnNotification {
                            module_id: t.module_id,
                            class: req.class,
                            layer: t.layer,
                        },
                    })
                &&& final(self).next_layer() == old(self).next_layer() + 1
                &&& final(self).next_module_id() == old(self).next_module_id() + 1
                &&& final(self).windows().len() == old(self).windows().len() + 1
                &&& forall|k: int| 0 <= k < old(self).windows().len()
                    ==> final(self).windows()[k] == old(self).windows()[k]
                &&& final(self).windows().last().id == t.module_id
                &&& final(self).windows().last().class == req.class
                &&& final(self).windows().last().target == t.target
                &&& final(self).windows().last().layer == t.layer
                &&& final(self).windows().last().width
                    == old(self).spawn_config().default_width
                &&& final(self).windows().last().height
                    == old(self).spawn_config().default_height
                &&& final(self).windows().last().pos_x == 0
                &&& final(self).windows().last().pos_y == 0
                &&& final(self).windows().last().dependents@ == Seq::<u64>::empty()
                &&& final(self).target_valid(t.target)
                &&& !old(self).target_valid(t.target)
                &&& final(self).target_of(t.target) == (RenderTarget {
                    width: old(self).spawn_config().default_width,
                    height: old(self).spawn_config().default_height,
                    format: old(self).spawn_config().format,
                    usage: UsageFlags {
                        texture_binding: true,
                        copy_dst: true,
                        render_attachment: true,
                    },
                    fill: old(self).spawn_config().fill,
                })
            }),
    {
        proof {
            self.layers.lemma_bounds();
        }
        process_spawn(
            self.config,
            &mut self.layers,
            &mut self.store,
            &mut self.table,
            &self.registry,
            req,
        )
    }

    /// Spawn phase, a whole frame's queue in arrival order. Whenever the
    /// remaining layer space suffices for all of them, every request
    /// succeeds: exactly as many new module windows afterwards as there
    /// were requests, in arrival order, each of its request's class — and
    /// by [`Self::lemma_layers_distinct`] with distinct nonzero layers,
    /// strictly increasing in arrival order.
    pub fn spawn_batch(&mut self, reqs: &Vec<SpawnRequest>)
        -> (tickets: Vec<Result<SpawnTicket, SpawnError>>)
        requires
            old(self).wf(),
        ensures
            final(self).wf(),
            tickets@.len() == reqs@.len(),
            final(self).registrations() == old(self).registrations(),
            final(self).pending() == old(self).pending(),
            final(self).layer_limit() == old(self).layer_limit(),
            final(self).spawn_config() == old(self).spawn_config(),
            final(self).panel_floor() == old(self).panel_floor(),
            forall|k: int| 0 <= k < old(self).windows().len()
                ==> final(self).windows()[k] == old(self).windows()[k],
            old(self).next_layer() + reqs@.len() <= old(self).layer_limit() + 1 ==> ({
                &&& forall|k: int| 0 <= k < tickets@.len() ==> (#[trigger] tickets@[k]) is Ok
                &&& final(self).windows().len() == old(self).windows().len() + reqs@.len()
                &&& final(self).next_layer() == old(self).next_layer() + reqs@.len()
                &&& forall|k: int| 0 <= k < reqs@.len()
                    ==> final(self).windows()[old(self).windows().len() + k].class
                        == (#[trigger] reqs@[k]).class
                &&& forall|k: int| 0 <= k < reqs@.len()
                    ==> #[trigger] final(self).windows()[old(self).windows().len() + k].layer
                        == old(self).next_layer() + k
            }),
    {
        let mut tickets: Vec<Result<SpawnTicket, SpawnError>> = Vec::new();
        let mut i: usize = 0;
        let n: usize = reqs.len();
        while i < n
            invariant
                self.wf(),
                n == reqs@.len(),
                i <= n,
                tickets@.len() == i,
                self.registrations() == old(self).registrations(),
                self.pending() == old(self).pending(),
                self.layer_limit() == old(self).layer_limit(),
                self.spawn_config() == old(self).spawn_config(),
                self.panel_floor() == old(self).panel_floor(),
                self.windows().len() >= old(self).windows().len(),
                forall|k: int| 0 <= k < old(self).windows().len()
                    ==> self.windows()[k] == old(self).windows()[k],
                old(self).next_layer() + reqs@.len() <= old(self).layer_limit() + 1 ==> ({
                    &&& forall|k: int| 0 <= k < i ==> (#[trigger] tickets@[k]) is Ok
                    &&& self.windows().len() == old(self).windows().len() + i
                    &&& self.next_layer() == old(self).next_layer() + i
                    &&& forall|k: int| 0 <= k < i
                        ==> self.windows()[old(self).windows().len() + k].class
                            == (#[trigger] reqs@[k]).class
                    &&& forall|k: int| 0 <= k < i
                        ==> #[trigger] self.windows()[old(self).windows().len() + k].layer
                            == old(self).next_layer() + k
                }),
            decreases n - i,
        {
            let t = self.spawn(reqs[i]);
            tickets.push(t);
            i = i + 1;
        }
        tickets
    }

    /// Records one content object, created by a builder, as a dependent of
    /// its module, so rescale notices and despawn reach it. Attaching to a
    /// gone module or attaching twice changes nothing; `true` means
    /// attached now.
    pub fn attach_content(&mut self, module_id: u64, content_id: u64) -> (r: bool)
        requires
            old(self).wf(),
        ensures
            final(self).wf(),
            final(self).registrations() == old(self).registrations(),
            final(self).pending() == old(self).pending(),
            final(self).next_layer() == old(self).next_layer(),
            final(self).layer_limit() == old(self).layer_limit(),
            final(self).next_module_id() == old(self).next_module_id(),
            final(self).spawn_config() == old(self).spawn_config(),
            final(self).panel_floor() == old(self).panel_floor(),
            forall|h: TargetHandle| final(self).target_valid(h) == old(self).target_valid(h),
            !contains_id(old(self).windows(), module_id)
                ==> !r && final(self).windows() == old(self).windows(),
            contains_id(old(self).windows(), module_id) ==> ({
                let i = index_of_id(old(self).windows(), module_id);
                &&& old(self).windows()[i].dependents@.contains(content_id)
                    ==> !r && final(self).windows() == old(self).windows()
                &&& !old(self).windows()[i].dependents@.contains(content_id) ==> {
                    &&& r
                    &&& final(self).windows().len() == old(self).windows().len()
                    &&& forall|k: int| 0 <= k < old(self).windows().len() && k != i
                        ==> final(self).windows()[k] == old(self).windows()[k]
                    &&& final(self).windows()[i].dependents@
                        == old(self).windows()[i].dependents@.push(content_id)
                    &&& final(self).windows()[i].id == old(self).windows()[i].id
                    &&& final(self).windows()[i].class == old(self).windows()[i].class
                    &&& final(self).windows()[i].layer == old(self).windows()[i].layer
                    &&& final(self).windows()[i].target == old(self).windows()[i].target
                    &&& final(self).windows()[i].width == old(self).windows()[i].width
                    &&& final(self).windows()[i].height == old(self).windows()[i].height
                    &&& final(self).windows()[i].pos_x == old(self).windows()[i].pos_x
                    &&& final(self).windows()[i].pos_y == old(self).windows()[i].pos_y
                }
            }),
    {
        self.table.attach(module_id, content_id)
    }

    /// Tears one module down: its window leaves the table, its texture is
    /// freed, and the ids of its dependent content objects are handed back
    /// so the host destroys them too — content tagged with a layer never
    /// outlives the module owning that layer. The module's layer is not
    /// reused. Despawning an absent id changes nothing.
    pub fn despawn(&mut self, module_id: u64) -> (r: Option<Vec<u64>>)
        requires
            old(self).wf(),
        ensures
            final(self).wf(),
            final(self).registrations() == old(self).registrations(),
            final(self).pending() == old(self).pending(),
            final(self).next_layer() == old(self).next_layer(),
            final(self).layer_limit() == old(self).layer_limit(),
            final(self).next_module_id() == old(self).next_module_id(),
            final(self).spawn_config() == old(self).spawn_config(),
            final(self).panel_floor() == old(self).panel_floor(),
            !contains_id(old(self).windows(), module_id) ==> ({
                &&& r is None
                &&& final(self).windows() == old(self).windows()
                &&& forall|h: TargetHandle|
                    final(self).target_valid(h) == old(self).target_valid(h)
            }),
            contains_id(old(self).windows(), module_id) ==> ({
                let i = index_of_id(old(self).windows(), module_id);
                &&& r matches Some(deps) && deps@ == old(self).windows()[i].dependents@
                &&& final(self).windows() == old(self).windows().remove(i)
                &&& !final(self).target_valid(old(self).windows()[i].target)
                &&& forall|h: TargetHandle| h != old(self).windows()[i].target
                    ==> final(self).target_valid(h) == old(self).target_valid(h)
            }),
    {
        match self.table.remove(module_id) {
            Some(w) => {
                let _ = self.store.free(w.target);
                Some(w.dependents)
            },
            None => None,
        }
    }

    /// Tears every module down, oldest first, as a session restart does:
    /// afterwards no module is live, every module texture is freed, and all
    /// dependent content ids are handed back for destruction. Neither
    /// layers nor module ids are reclaimed: a session that restarts keeps
    /// counting where it stopped.
    pub fn despawn_all(&mut self) -> (freed: Vec<u64>)
        requires
            old(self).wf(),
        ensures
            final(self).wf(),
            final(self).windows().len() == 0,
            freed@ == crate::window::all_dependents(old(self).windows()),
            forall|i: int| 0 <= i < old(self).windows().len()
                ==> !final(self).target_valid(#[trigger] old(self).windows()[i].target),
            final(self).registrations() == old(self).registrations(),
            final(self).pending() == old(self).pending(),
            final(self).next_layer() == old(self).next_layer(),
            final(self).layer_limit() == old(self).layer_limit(),
            final(self).next_module_id() == old(self).next_module_id(),
            final(self).spawn_config() == old(self).spawn_config(),
            final(self).panel_floor() == old(self).panel_floor(),
    {
        let total: usize = self.module_count();
        let mut freed: Vec<u64> = Vec::new();
        let mut k: usize = 0;
        while k < total
            invariant
                self.wf(),
                old(self).wf(),
                total == old(self).windows().len(),
                k <= total,
                self.windows() =~= old(self).windows().skip(k as int),
                freed@ == crate::window::all_dependents(old(self).windows().take(k as int)),
                forall|i: int| 0 <= i < k
                    ==> !self.target_valid(#[trigger] old(self).windows()[i].target),
                self.registrations() == old(self).registrations(),
                self.pending() == old(self).pending(),
                self.next_layer() == old(self).next_layer(),
                self.layer_limit() == old(self).layer_limit(),
                self.next_module_id() == old(self).next_module_id(),
                self.spawn_config() == old(self).spawn_config(),
                self.panel_floor() == old(self).panel_floor(),
            decreases total - k,
        {
            proof {
                assert(self.windows()[0] == old(self).windows()[k as int]);
                assert(old(self).windows().take(k + 1).drop_last()
                    =~= old(self).windows().take(k as int));
                assert(old(self).windows().take(k + 1).last()
                    == old(self).windows()[k as int]);
            }
            let oldest: u64 = self.window_at(0).id;
            proof {
                let c = index_of_id(self.windows(), oldest);
                assert(0 <= c < self.windows().len() && self.windows()[c].id == oldest);
                assert(self.windows()[0].id == oldest);
                assert(c == 0) by {
                    if c != 0 {
                        assert(self.windows()[0].id != self.windows()[c].id);
                    }
                }
            }
            match self.despawn(oldest) {
                Some(mut deps) => {
                    freed.append(&mut deps);
                },
                None => {
                    // The oldest window's id was just read from the table.
                    proof {
                        assert(false);
                    }
                },
            }
            proof {
                assert(self.windows()
                    =~= old(self).windows().skip(k as int).remove(0));
                assert(old(self).windows().skip(k as int).remove(0)
                    =~= old(self).windows().skip(k + 1));
            }
            k = k + 1;
        }
        proof {
            assert(old(self).windows().take(total as int) =~= old(self).windows());
        }
        freed
    }

    /// Resize phase, one request, typically taken from [`Self::take_resizes`].
    /// A request for a despawned module is dropped silently, one matching
    /// the current size does nothing, and otherwise texture and window move
    /// to the new size together and the returned notices owe one rescale to
    /// each dependent.
    pub fn apply_resize(&mut self, req: ResizeRequest) -> (r: ResizeOutcome)
        requires
            old(self).wf(),
            req.width > 0,
            req.height > 0,
        ensures
            final(self).wf(),
            final(self).registrations() == old(self).registrations(),
            final(self).pending() == old(self).pending(),
            final(self).next_layer() == old(self).next_layer(),
            final(self).layer_limit() == old(self).layer_limit(),
            final(self).next_module_id() == old(self).next_module_id(),
            final(self).spawn_config() == old(self).spawn_config(),
            final(self).panel_floor() == old(self).panel_floor(),
            forall|h: TargetHandle| final(self).target_valid(h) == old(self).target_valid(h),
            !contains_id(old(self).windows(), req.module_id) ==> ({
                &&& r is Dropped
                &&& final(self).windows() == old(self).windows()
            }),
            contains_id(old(self).windows(), req.module_id) ==> ({
                let i = index_of_id(old(self).windows(), req.module_id);
                let w = old(self).windows()[i];
                &&& (w.width == req.width && w.height == req.height) ==> {
                    &&& r is Unchanged
                    &&& final(self).windows() == old(self).windows()
                }
                &&& !(w.width == req.width && w.height == req.height) ==> {
                    &&& r is Applied
                    &&& (r matches ResizeOutcome::Applied(notices) ==> notices@
                        == rescale_notices(req.module_id, w.dependents@, req.width, req.height))
                    &&& final(self).windows().len() == old(self).windows().len()
                    &&& forall|k: int| 0 <= k < old(self).windows().len() && k != i
                        ==> final(self).windows()[k] == old(self).windows()[k]
                    &&& final(self).windows()[i]
                        == (ModuleWindow { width: req.width, height: req.height, ..w })
                    &&& final(self).target_of(w.target).width == req.width
                    &&& final(self).target_of(w.target).height == req.height
                }
            }),
    {
        process_resize(&mut self.table, &mut self.store, req)
    }

    /// Hands the queued resize requests out for this frame's resize phase
    /// and leaves the queue empty; the requests come out in emission order.
    pub fn take_resizes(&mut self) -> (reqs: Vec<ResizeRequest>)
        requires
            old(self).wf(),
        ensures
            final(self).wf(),
            reqs@ == old(self).pending(),
            final(self).pending() == Seq::<ResizeRequest>::empty(),
            forall|j: int| 0 <= j < reqs@.len() ==> reqs@[j].width > 0 && reqs@[j].height > 0,
            final(self).windows() == old(self).windows(),
            final(self).registrations() == old(self).registrations(),
            final(self).next_layer() == old(self).next_layer(),
            final(self).layer_limit() == old(self).layer_limit(),
            final(self).next_module_id() == old(self).next_module_id(),
            final(self).spawn_config() == old(self).spawn_config(),
            final(self).panel_floor() == old(self).panel_floor(),
            forall|h: TargetHandle| final(self).target_valid(h) == old(self).target_valid(h),
    {
        let mut reqs: Vec<ResizeRequest> = Vec::new();
        core::mem::swap(&mut self.pending, &mut reqs);
        reqs
    }

    /// Panel phase: window `k` gets realized rectangle `rects[k]`. Every
    /// module's placement is updated from its rectangle's center,
    /// converted to render-world coordinates by the host resolution, and
    /// the requests for modules whose panel size disagrees with their
    /// current size — at most one per module — are queued for the next
    /// frame's resize phase.
    pub fn run_panel_driver(
        &mut self,
        rects: &Vec<PanelRect>,
        host_width: u32,
        host_height: u32,
    )
        requires
            old(self).wf(),
            rects@.len() == old(self).windows().len(),
            forall|k: int| 0 <= k < rects@.len()
                ==> rects@[k].width > 0 && rects@[k].height > 0,
        ensures
            final(self).wf(),
            final(self).registrations() == old(self).registrations(),
            final(self).next_layer() == old(self).next_layer(),
            final(self).layer_limit() == old(self).layer_limit(),
            final(self).next_module_id() == old(self).next_module_id(),
            final(self).spawn_config() == old(self).spawn_config(),
            final(self).panel_floor() == old(self).panel_floor(),
            forall|h: TargetHandle| final(self).target_valid(h) == old(self).target_valid(h),
            final(self).windows().len() == old(self).windows().len(),
            forall|k: int| 0 <= k < old(self).windows().len()
                ==> final(self).windows()[k] == (ModuleWindow {
                    pos_x: world_x(rects@[k].center_x as int, host_width as int) as i64,
                    pos_y: world_y(rects@[k].center_y as int, host_height as int) as i64,
                    ..old(self).windows()[k]
                }),
            final(self).pending()
                == old(self).pending() + emitted_requests(old(self).windows(), rects@),
    {
        let mut reqs = drive_panels(&mut self.table, rects, host_width, host_height);
        self.pending.append(&mut reqs);
    }

    /// How many modules are live.
    pub fn module_count(&self) -> (r: usize)
        ensures
            r == self.windows().len(),
    {
        self.table.len()
    }

    /// Reads the window at position `i` (spawn order).
    pub fn window_at(&self, i: usize) -> (r: &ModuleWindow)
        requires
            i < self.windows().len(),
        ensures
            *r == self.windows()[i as int],
    {
        self.table.at(i)
    }

    /// Looks a module up by id.
    pub fn find_module(&self, module_id: u64) -> (r: Option<usize>)
        ensures
            r matches Some(i) ==> i < self.windows().len()
                && self.windows()[i as int].id == module_id,
            r is None ==> !contains_id(self.windows(), module_id),
    {
        self.table.find(module_id)
    }

    /// Layers identify live modules uniquely: every live module's layer is
    /// nonzero, strictly increasing in spawn order, below the allocator's
    /// next layer — so despawning and spawning again can never hand a
    /// dead module's layer to a new one.
    pub proof fn lemma_layers_distinct(self)
        requires
            self.wf(),
        ensures
            forall|i: int| 0 <= i < self.windows().len()
                ==> #[trigger] self.windows()[i].layer >= 1,
            forall|i: int| 0 <= i < self.windows().len()
                ==> #[trigger] self.windows()[i].layer < self.next_layer(),
            forall|i: int, j: int| 0 <= i < j < self.windows().len()
                ==> self.windows()[i].layer < self.windows()[j].layer,
            forall|i: int, j: int| 0 <= i < j < self.windows().len()
                ==> self.windows()[i].layer != self.windows()[j].layer,
    {
    }

    /// Texture and window never disagree: at every phase boundary, each
    /// live module's render target is live in the store and its dimensions
    /// equal the module's current size.
    pub proof fn lemma_texture_matches_window(self)
        requires
            self.wf(),
        ensures
            forall|i: int| 0 <= i < self.windows().len()
                ==> self.target_valid(#[trigger] self.windows()[i].target),
            forall|i: int| 0 <= i < self.windows().len()
                ==> self.target_of(#[trigger] self.windows()[i].target).width
                        == self.windows()[i].width
                    && self.target_of(self.windows()[i].target).height
                        == self.windows()[i].height,
            forall|i: int| 0 <= i < self.windows().len()
                ==> #[trigger] self.windows()[i].width > 0
                    && self.windows()[i].height > 0,
    {
    }
}

} // verus!
