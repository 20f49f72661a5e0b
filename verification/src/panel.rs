//! The per-frame panel driver.
//!
//! Once per frame, after spawn and resize processing, the host draws one
//! undecorated floating panel per live module and reports each panel's
//! realized screen rectangle back, rounded to whole pixels. The driver then
//! compares every panel's size against its module's current size and emits
//! at most one resize request per module per frame — the oscillation guard:
//! emitting on every pixel of a drag would thrash the texture, and a request
//! emitted this frame is only applied next frame, never re-observed within
//! the same one. Placement is updated unconditionally every frame,
//! converting the panel's screen-space center to the host's render-world
//! coordinate space using the host window's resolution.

use vstd::prelude::*;
use crate::events::ResizeRequest;
use crate::window::{distinct_ids, ModuleWindow, WindowTable};

verus! {

/// A panel's realized screen rectangle: its center in screen coordinates
/// and its size, whole pixels.
#[derive(Clone, Copy, PartialEq, Eq, Structural, Debug)]
pub struct PanelRect {
    pub center_x: i32,
    pub center_y: i32,
    pub width: u32,
    pub height: u32,
}

/// The caller-chosen minimum panel size; never zero in either dimension.
#[derive(Clone, Copy, PartialEq, Eq, Structural, Debug)]
pub struct PanelFloor {
    pub min_width: u32,
    pub min_height: u32,
}

impl PanelFloor {
    pub open spec fn wf(self) -> bool {
        self.min_width > 0 && self.min_height > 0
    }
}

/// How one module's panel must be drawn: no title bar, a transparent frame,
/// free placement, the module's current size as default and the configured
/// floor as minimum.
#[derive(Clone, Copy, PartialEq, Eq, Structural, Debug)]
pub struct PanelSpec {
    pub default_width: u32,
    pub default_height: u32,
    pub min_width: u32,
    pub min_height: u32,
    pub title_bar: bool,
    pub transparent_frame: bool,
    pub constrain: bool,
}

/// The UI surface contract for one module's panel.
pub fn panel_spec(win: &ModuleWindow, floor: &PanelFloor) -> (r: PanelSpec)
    ensures
        r == (PanelSpec {
            default_width: win.width,
            default_height: win.height,
            min_width: floor.min_width,
            min_height: floor.min_height,
            title_bar: false,
            transparent_frame: true,
            constrain: false,
        }),
{
    PanelSpec {
        default_width: win.width,
        default_height: win.height,
        min_width: floor.min_width,
        min_height: floor.min_height,
        title_bar: false,
        transparent_frame: true,
        constrain: false,
    }
}

/// A panel center's horizontal render-world coordinate: screen space puts
/// the origin at the host window's top-left corner, the render world at its
/// center.
pub open spec fn world_x(center_x: int, host_width: int) -> int {
    center_x - host_width / 2
}

/// The vertical counterpart; the screen's y axis points down, the render
/// world's up.
pub open spec fn world_y(center_y: int, host_height: int) -> int {
    host_height / 2 - center_y
}

/// The request a panel's realized rectangle gives rise to, when it does.
pub open spec fn request_for(win: ModuleWindow, rect: PanelRect) -> ResizeRequest {
    ResizeRequest { module_id: win.id, width: rect.width, height: rect.height }
}

/// Does this panel's size disagree with its module's current size?
pub open spec fn size_changed(win: ModuleWindow, rect: PanelRect) -> bool {
    rect.width != win.width || rect.height != win.height
}

/// The resize requests one frame of the driver emits: for window `k` and its
/// realized rectangle `rects[k]`, one request exactly when the sizes
/// disagree, in window order.
pub open spec fn emitted_requests(
    windows: Seq<ModuleWindow>,
    rects: Seq<PanelRect>,
) -> Seq<ResizeRequest>
    decreases windows.len(),
{
    if windows.len() == 0 || rects.len() == 0 {
        Seq::empty()
    } else {
        let prefix = emitted_requests(windows.drop_last(), rects.drop_last());
        if size_changed(windows.last(), rects.last()) {
            prefix.push(request_for(windows.last(), rects.last()))
        } else {
            prefix
        }
    }
}

/// Every emitted request names some window, by the window's own current
/// size against its rectangle.
proof fn lemma_emitted_requests_from_windows(windows: Seq<ModuleWindow>, rects: Seq<PanelRect>)
    requires
        rects.len() == windows.len(),
    ensures
        forall|j: int| 0 <= j < emitted_requests(windows, rects).len()
            ==> exists|i: int| 0 <= i < windows.len()
                && #[trigger] emitted_requests(windows, rects)[j].module_id == windows[i].id,
    decreases windows.len(),
{
    if windows.len() > 0 {
        lemma_emitted_requests_from_windows(windows.drop_last(), rects.drop_last());
        let prefix = emitted_requests(windows.drop_last(), rects.drop_last());
        assert forall|j: int| 0 <= j < emitted_requests(windows, rects).len()
            implies exists|i: int| 0 <= i < windows.len()
                && #[trigger] emitted_requests(windows, rects)[j].module_id == windows[i].id by {
            if j < prefix.len() {
                assert(emitted_requests(windows, rects)[j] == prefix[j]);
                let i = choose|i: int| 0 <= i < windows.drop_last().len()
                    && #[trigger] prefix[j].module_id == windows.drop_last()[i].id;
                assert(windows.drop_last()[i] == windows[i]);
            } else {
                assert(emitted_requests(windows, rects)[j].module_id
                    == windows[windows.len() - 1].id);
            }
        }
    }
}

/// The oscillation guard as a law: with distinct module ids, one frame of
/// the driver emits at most one resize request per module.
pub proof fn lemma_one_request_per_module_per_frame(
    windows: Seq<ModuleWindow>,
    rects: Seq<PanelRect>,
)
    requires
        distinct_ids(windows),
        rects.len() == windows.len(),
    ensures
        forall|j: int, k: int|
            0 <= j < k < emitted_requests(windows, rects).len()
                ==> emitted_requests(windows, rects)[j].module_id
                    != emitted_requests(windows, rects)[k].module_id,
    decreases windows.len(),
{
    if windows.len() > 0 {
        lemma_one_request_per_module_per_frame(windows.drop_last(), rects.drop_last());
        lemma_emitted_requests_from_windows(windows.drop_last(), rects.drop_last());
        let prefix = emitted_requests(windows.drop_last(), rects.drop_last());
        assert forall|j: int, k: int|
            0 <= j < k < emitted_requests(windows, rects).len()
                implies emitted_requests(windows, rects)[j].module_id
                    != emitted_requests(windows, rects)[k].module_id by {
            if k < prefix.len() {
                assert(emitted_requests(windows, rects)[j] == prefix[j]);
                assert(emitted_requests(windows, rects)[k] == prefix[k]);
            } else if k == prefix.len()
                && emitted_requests(windows, rects).len() == prefix.len() + 1 {
                assert(emitted_requests(windows, rects)[j] == prefix[j]);
                let i = choose|i: int| 0 <= i < windows.drop_last().len()
                    && #[trigger] prefix[j].module_id == windows.drop_last()[i].id;
                assert(windows[i].id != windows[windows.len() - 1].id);
            }
        }
    }
}

/// A quiet frame is silent: when every panel's realized size agrees with
/// its module's current size — as it does one frame after a resize settled
/// and no further drag happened — the driver emits no request at all.
pub proof fn lemma_quiet_frame_emits_nothing(windows: Seq<ModuleWindow>, rects: Seq<PanelRect>)
    requires
        rects.len() == windows.len(),
        forall|k: int| 0 <= k < windows.len()
            ==> !size_changed(#[trigger] windows[k], rects[k]),
    ensures
        emitted_requests(windows, rects).len() == 0,
    decreases windows.len(),
{
    if windows.len() > 0 {
        assert(!size_changed(windows[windows.len() - 1], rects[windows.len() - 1]));
        lemma_quiet_frame_emits_nothing(windows.drop_last(), rects.drop_last());
    }
}

/// Drives one module's panel for this frame: always moves the window to the
/// rectangle's center converted to render-world coordinates, and emits a
/// resize request exactly when the rectangle's size disagrees with the
/// module's current size.
pub fn drive_panel(
    table: &mut WindowTable,
    i: usize,
    rect: PanelRect,
    host_width: u32,
    host_height: u32,
) -> (r: Option<ResizeRequest>)
    requires
        old(table).wf(),
        i < old(table)@.len(),
        rect.width > 0,
        rect.height > 0,
    ensures
        final(table).wf(),
        final(table).next_module_id() == old(table).next_module_id(),
        final(table)@.len() == old(table)@.len(),
        forall|k: int| 0 <= k < old(table)@.len() && k != i
            ==> final(table)@[k] == old(table)@[k],
        final(table)@[i as int] == (ModuleWindow {
            pos_x: world_x(rect.center_x as int, host_width as int) as i64,
            pos_y: world_y(rect.center_y as int, host_height as int) as i64,
            ..old(table)@[i as int]
        }),
        r is Some <==> size_changed(old(table)@[i as int], rect),
        r matches Some(q) ==> q == request_for(old(table)@[i as int], rect),
{
    let wx: i64 = rect.center_x as i64 - (host_width / 2) as i64;
    let wy: i64 = (host_height / 2) as i64 - rect.center_y as i64;
    let differs: bool =
        rect.width != table.at(i).width || rect.height != table.at(i).height;
    let module_id: u64 = table.at(i).id;
    table.set_position(i, wx, wy);
    if differs {
        Some(ResizeRequest { module_id, width: rect.width, height: rect.height })
    } else {
        None
    }
}

/// One full driver pass: window `k` gets rectangle `rects[k]`. Every
/// module's placement is updated from its rectangle, sizes are left to the
/// resize coordinator, and the emitted requests — at most one per module —
/// are returned for the *next* frame's resize phase.
pub fn drive_panels(
    table: &mut WindowTable,
    rects: &Vec<PanelRect>,
    host_width: u32,
    host_height: u32,
) -> (reqs: Vec<ResizeRequest>)
    requires
        old(table).wf(),
        rects@.len() == old(table)@.len(),
        forall|k: int| 0 <= k < rects@.len()
            ==> rects@[k].width > 0 && rects@[k].height > 0,
    ensures
        final(table).wf(),
        final(table).next_module_id() == old(table).next_module_id(),
        final(table)@.len() == old(table)@.len(),
        forall|k: int| 0 <= k < old(table)@.len() ==> final(table)@[k] == (ModuleWindow {
            pos_x: world_x(rects@[k].center_x as int, host_width as int) as i64,
            pos_y: world_y(rects@[k].center_y as int, host_height as int) as i64,
            ..old(table)@[k]
        }),
        reqs@ == emitted_requests(old(table)@, rects@),
        forall|j: int| 0 <= j < reqs@.len()
            ==> reqs@[j].width > 0 && reqs@[j].height > 0,
{
    let mut reqs: Vec<ResizeRequest> = Vec::new();
    let mut i: usize = 0;
    let n: usize = table.len();
    while i < n
        invariant
            table.wf(),
            n == old(table)@.len(),
            table.next_module_id() == old(table).next_module_id(),
            table@.len() == old(table)@.len(),
            rects@.len() == old(table)@.len(),
            forall|k: int| 0 <= k < rects@.len()
                ==> rects@[k].width > 0 && rects@[k].height > 0,
            i <= n,
            forall|k: int| i <= k < old(table)@.len() ==> table@[k] == old(table)@[k],
            forall|k: int| 0 <= k < i ==> table@[k] == (ModuleWindow {
                pos_x: world_x(rects@[k].center_x as int, host_width as int) as i64,
                pos_y: world_y(rects@[k].center_y as int, host_height as int) as i64,
                ..old(table)@[k]
            }),
            reqs@ == emitted_requests(old(table)@.take(i as int), rects@.take(i as int)),
            forall|j: int| 0 <= j < reqs@.len()
                ==> reqs@[j].width > 0 && reqs@[j].height > 0,
        decreases n - i,
    {
        proof {
            assert(old(table)@.take(i + 1).drop_last() =~= old(table)@.take(i as int));
            assert(rects@.take(i + 1).drop_last() =~= rects@.take(i as int));
            assert(old(table)@.take(i + 1).last() == old(table)@[i as int]);
            assert(rects@.take(i + 1).last() == rects@[i as int]);
        }
        match drive_panel(table, i, rects[i], host_width, host_height) {
            Some(q) => reqs.push(q),
            None => (),
        }
        i = i + 1;
    }
    proof {
        assert(old(table)@.take(n as int) =~= old(table)@);
        assert(rects@.take(n as int) =~= rects@);
    }
    reqs
}

} // verus!
