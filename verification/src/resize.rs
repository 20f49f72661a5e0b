//! The resize coordinator.
//!
//! Each frame's pending resize requests are applied here, before the panel
//! driver runs. A request for a module that was despawned while the request
//! was in flight is dropped silently — an expected race, not an error. A
//! request that matches the module's current size does nothing, so a request
//! re-emitted with unchanged dimensions never causes GPU work. Otherwise the
//! backing texture is resized in place, the window's current size is
//! updated, and one rescale notice per dependent content object is emitted,
//! with the same isolation discipline as spawn fan-out: the host delivers
//! the notices, and one dependent failing to apply its rescale concerns
//! nobody else.

use vstd::prelude::*;
use crate::events::{ContentRescale, ResizeRequest};
use crate::target::{RenderTarget, RenderTargetStore};
use crate::window::{contains_id, index_of_id, ModuleWindow, WindowTable};

verus! {

/// What one resize request led to.
pub enum ResizeOutcome {
    /// No live module has the requested id; nothing changed.
    Dropped,
    /// The module already has the requested size; nothing changed.
    Unchanged,
    /// The texture and the window size were updated; the host must deliver
    /// one rescale notice to each dependent content object.
    Applied(Vec<ContentRescale>),
}

/// The rescale notices owed after a resize of `module_id` to `(width,
/// height)`: one per dependent, in attachment order, all carrying the new
/// size.
pub open spec fn rescale_notices(
    module_id: u64,
    dependents: Seq<u64>,
    width: u32,
    height: u32,
) -> Seq<ContentRescale> {
    Seq::new(
        dependents.len(),
        |k: int| ContentRescale { module_id, content_id: dependents[k], width, height },
    )
}

/// With distinct dependents, the notices of one resize reach every
/// dependent exactly once: notice `k` goes to dependent `k` with the new
/// size, and no two notices name the same content object.
pub proof fn lemma_each_dependent_notified_once(
    module_id: u64,
    dependents: Seq<u64>,
    width: u32,
    height: u32,
)
    requires
        crate::window::distinct_seq(dependents),
    ensures
        rescale_notices(module_id, dependents, width, height).len() == dependents.len(),
        forall|k: int| 0 <= k < dependents.len()
            ==> rescale_notices(module_id, dependents, width, height)[k] == (ContentRescale {
                module_id,
                content_id: dependents[k],
                width,
                height,
            }),
        forall|j: int, k: int| 0 <= j < k < dependents.len()
            ==> rescale_notices(module_id, dependents, width, height)[j].content_id
                != rescale_notices(module_id, dependents, width, height)[k].content_id,
{
}

/// Applies one resize request.
///
/// The targeted window's handle must be live in `store` (every live module's
/// is). Exactly one of three things happens: the request is dropped because
/// the module is gone, dropped because the size already matches, or applied —
/// texture and window agree on the new size afterwards, every other module
/// is untouched, and the notices owed to the module's dependents are
/// returned.
pub fn process_resize(
    table: &mut WindowTable,
    store: &mut RenderTargetStore,
    req: ResizeRequest,
) -> (r: ResizeOutcome)
    requires
        old(table).wf(),
        req.width > 0,
        req.height > 0,
        contains_id(old(table)@, req.module_id)
            ==> old(store).valid(old(table)@[index_of_id(old(table)@, req.module_id)].target),
    ensures
        final(table).wf(),
        final(table).next_module_id() == old(table).next_module_id(),
        !contains_id(old(table)@, req.module_id) ==> ({
            &&& r is Dropped
            &&& *final(table) == *old(table)
            &&& *final(store) == *old(store)
        }),
        contains_id(old(table)@, req.module_id) ==> ({
            let i = index_of_id(old(table)@, req.module_id);
            let w = old(table)@[i];
            &&& (w.width == req.width && w.height == req.height) ==> {
                &&& r is Unchanged
                &&& *final(table) == *old(table)
                &&& *final(store) == *old(store)
            }
            &&& !(w.width == req.width && w.height == req.height) ==> {
                &&& (r matches ResizeOutcome::Applied(notices) ==> notices@
                    == rescale_notices(req.module_id, w.dependents@, req.width, req.height))
                &&& r is Applied
                &&& final(table)@.len() == old(table)@.len()
                &&& forall|k: int| 0 <= k < old(table)@.len() && k != i
                    ==> final(table)@[k] == old(table)@[k]
                &&& final(table)@[i]
                    == (ModuleWindow { width: req.width, height: req.height, ..w })
                &&& forall|h: crate::target::TargetHandle|
                    final(store).valid(h) == old(store).valid(h)
                &&& final(store).target(w.target) == (RenderTarget {
                    width: req.width,
                    height: req.height,
                    ..old(store).target(w.target)
                })
                &&& forall|h: crate::target::TargetHandle| h != w.target && old(store).valid(h)
                    ==> final(store).target(h) == old(store).target(h)
            }
        }),
{
    let found = table.find(req.module_id);
    match found {
        None => ResizeOutcome::Dropped,
        Some(i) => {
            proof {
                let c = index_of_id(table@, req.module_id);
                assert(0 <= c < table@.len() && table@[c].id == req.module_id);
                assert(c == i);
            }
            let current_w: u32 = table.at(i).width;
            let current_h: u32 = table.at(i).height;
            if current_w == req.width && current_h == req.height {
                ResizeOutcome::Unchanged
            } else {
                let handle = table.at(i).target;
                let _ = store.resize(handle, req.width, req.height);
                table.set_size(i, req.width, req.height);
                let mut notices: Vec<ContentRescale> = Vec::new();
                let n: usize = table.at(i).dependents.len();
                let mut k: usize = 0;
                while k < n
                    invariant
                        i < table@.len(),
                        n == table@[i as int].dependents@.len(),
                        k <= n,
                        notices@.len() == k,
                        forall|j: int| 0 <= j < k ==> notices@[j] == (ContentRescale {
                            module_id: req.module_id,
                            content_id: table@[i as int].dependents@[j],
                            width: req.width,
                            height: req.height,
                        }),
                    decreases n - k,
                {
                    let cid: u64 = table.at(i).dependents[k];
                    notices.push(ContentRescale {
                        module_id: req.module_id,
                        content_id: cid,
                        width: req.width,
                        height: req.height,
                    });
                    k = k + 1;
                }
                proof {
                    assert(notices@ =~= rescale_notices(
                        req.module_id,
                        old(table)@[i as int].dependents@,
                        req.width,
                        req.height,
                    ));
                }
                ResizeOutcome::Applied(notices)
            }
        },
    }
}

} // verus!
