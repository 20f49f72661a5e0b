//! The module-window table.
//!
//! A `ModuleWindow` is the externally visible entity for one live module: it
//! owns that module's render target and layer, carries the current size that
//! UI geometry and the texture are reconciled against, and keeps weak
//! back-references to the content objects tagged with its layer, so a
//! despawn can cascade to them instead of leaving dangling handles.

use vstd::prelude::*;
use crate::events::ModuleClass;
use crate::target::TargetHandle;

verus! {

/// One live module. Created exactly once per successful spawn, destroyed on
/// explicit despawn. `width`/`height` are the single source of truth for the
/// module's size; `pos_x`/`pos_y` are its placement in the host's
/// render-world coordinate space, whole pixels.
pub struct ModuleWindow {
    pub id: u64,
    pub class: ModuleClass,
    pub target: TargetHandle,
    pub layer: u32,
    pub width: u32,
    pub height: u32,
    pub pos_x: i64,
    pub pos_y: i64,
    /// Ids of content objects tagged with this module's layer (weak
    /// back-references, no ownership), in attachment order, without
    /// duplicates.
    pub dependents: Vec<u64>,
}

/// No two elements of `s` are equal.
pub open spec fn distinct_seq<T>(s: Seq<T>) -> bool {
    forall|p: int, q: int| 0 <= p < q < s.len() ==> s[p] != s[q]
}

/// Some window in `s` has module id `id`.
pub open spec fn contains_id(s: Seq<ModuleWindow>, id: u64) -> bool {
    exists|i: int| 0 <= i < s.len() && s[i].id == id
}

/// The index of the window with module id `id` (meaningful only when
/// `contains_id(s, id)` holds; with distinct ids it is unique).
pub open spec fn index_of_id(s: Seq<ModuleWindow>, id: u64) -> int {
    choose|i: int| 0 <= i < s.len() && s[i].id == id
}

/// All module ids in `s` differ.
pub open spec fn distinct_ids(s: Seq<ModuleWindow>) -> bool {
    forall|p: int, q: int| 0 <= p < q < s.len() ==> s[p].id != s[q].id
}

/// The dependent content ids of all windows of `s`, in spawn order and,
/// within one window, attachment order.
pub open spec fn all_dependents(s: Seq<ModuleWindow>) -> Seq<u64>
    decreases s.len(),
{
    if s.len() == 0 {
        Seq::empty()
    } else {
        all_dependents(s.drop_last()) + s.last().dependents@
    }
}

/// The table of live module windows, in spawn order, with a counter for the
/// next module id. Module ids, like layers, are never reused.
pub struct WindowTable {
    windows: Vec<ModuleWindow>,
    next_id: u64,
}

impl View for WindowTable {
    type V = Seq<ModuleWindow>;

    closed spec fn view(&self) -> Seq<ModuleWindow> {
        self.windows@
    }
}

impl WindowTable {
    /// The id the next inserted window will get.
    pub closed spec fn next_module_id(self) -> int {
        self.next_id as int
    }

    /// Ids are distinct, below the counter, and each window's dependent list
    /// holds no duplicates.
    pub open spec fn wf(self) -> bool {
        &&& 1 <= self.next_module_id()
        &&& distinct_ids(self@)
        &&& forall|i: int| 0 <= i < self@.len() ==> self@[i].id < self.next_module_id()
        &&& forall|i: int| 0 <= i < self@.len() ==> distinct_seq(self@[i].dependents@)
    }

    /// An empty table whose first window will get id 1.
    pub fn new() -> (r: WindowTable)
        ensures
            r.wf(),
            r@ == Seq::<ModuleWindow>::empty(),
            r.next_module_id() == 1,
    {
        WindowTable { windows: Vec::new(), next_id: 1 }
    }

    /// How many modules are live.
    pub fn len(&self) -> (r: usize)
        ensures
            r == self@.len(),
    {
        self.windows.len()
    }

    /// Reads the window at position `i` (spawn order).
    pub fn at(&self, i: usize) -> (r: &ModuleWindow)
        requires
            i < self@.len(),
        ensures
            *r == self@[i as int],
    {
        &self.windows[i]
    }

    /// Appends the window of a fresh module: a new id, the given class,
    /// target, layer and size, placed at the origin, with no dependents yet.
    pub fn insert(
        &mut self,
        class: ModuleClass,
        target: TargetHandle,
        layer: u32,
        width: u32,
        height: u32,
    ) -> (id: u64)
        requires
            old(self).wf(),
            old(self).next_module_id() < u64::MAX,
        ensures
            final(self).wf(),
            id == old(self).next_module_id(),
            !contains_id(old(self)@, id),
            final(self).next_module_id() == old(self).next_module_id() + 1,
            final(self)@.len() == old(self)@.len() + 1,
            forall|k: int| 0 <= k < old(self)@.len() ==> final(self)@[k] == old(self)@[k],
            final(self)@.last().id == id,
            final(self)@.last().class == class,
            final(self)@.last().target == target,
            final(self)@.last().layer == layer,
            final(self)@.last().width == width,
            final(self)@.last().height == height,
            final(self)@.last().pos_x == 0,
            final(self)@.last().pos_y == 0,
            final(self)@.last().dependents@ == Seq::<u64>::empty(),
    {
        let id: u64 = self.next_id;
        self.windows.push(ModuleWindow {
            id,
            class,
            target,
            layer,
            width,
            height,
            pos_x: 0,
            pos_y: 0,
            dependents: Vec::new(),
        });
        self.next_id = self.next_id + 1;
        id
    }

    /// Looks the module `id` up; `None` means no live module has that id.
    pub fn find(&self, id: u64) -> (r: Option<usize>)
        ensures
            r matches Some(i) ==> i < self@.len() && self@[i as int].id == id,
            r is None ==> !contains_id(self@, id),
    {
        let mut i: usize = 0;
        while i < self.windows.len()
            invariant
                i <= self@.len(),
                forall|j: int| 0 <= j < i ==> self@[j].id != id,
            decreases self@.len() - i,
        {
            if self.windows[i].id == id {
                return Some(i);
            }
            i = i + 1;
        }
        None
    }

    /// Removes the window of module `id` and hands it out, so the caller can
    /// cascade to its target and dependents; the spawn order of the others
    /// is kept. Removing an absent id changes nothing.
    pub fn remove(&mut self, id: u64) -> (r: Option<ModuleWindow>)
        requires
            old(self).wf(),
        ensures
            final(self).wf(),
            final(self).next_module_id() == old(self).next_module_id(),
            !contains_id(old(self)@, id) ==> r is None && *final(self) == *old(self),
            contains_id(old(self)@, id) ==> ({
                let i = index_of_id(old(self)@, id);
                &&& r matches Some(w) && w == old(self)@[i]
                &&& final(self)@ == old(self)@.remove(i)
            }),
    {
        match self.find(id) {
            Some(i) => {
                proof {
                    let c = index_of_id(self@, id);
                    assert(0 <= c < self@.len() && self@[c].id == id);
                    assert(c == i);
                }
                let w = self.windows.remove(i);
                Some(w)
            },
            None => None,
        }
    }

    /// Records one content object as a dependent of module `module_id`: the
    /// object is tagged with that module's layer and must be rescaled and
    /// despawned with it. Attaching to an absent module, or attaching the
    /// same object twice, changes nothing; `true` means the object was
    /// attached now.
    pub fn attach(&mut self, module_id: u64, content_id: u64) -> (r: bool)
        requires
            old(self).wf(),
        ensures
            final(self).wf(),
            final(self).next_module_id() == old(self).next_module_id(),
            !contains_id(old(self)@, module_id) ==> !r && *final(self) == *old(self),
            contains_id(old(self)@, module_id) ==> ({
                let i = index_of_id(old(self)@, module_id);
                &&& old(self)@[i].dependents@.contains(content_id)
                    ==> !r && *final(self) == *old(self)
                &&& !old(self)@[i].dependents@.contains(content_id) ==> {
                    &&& r
                    &&& final(self)@.len() == old(self)@.len()
                    &&& forall|k: int| 0 <= k < old(self)@.len() && k != i
                        ==> final(self)@[k] == old(self)@[k]
                    &&& final(self)@[i].id == old(self)@[i].id
                    &&& final(self)@[i].class == old(self)@[i].class
                    &&& final(self)@[i].target == old(self)@[i].target
                    &&& final(self)@[i].layer == old(self)@[i].layer
                    &&& final(self)@[i].width == old(self)@[i].width
                    &&& final(self)@[i].height == old(self)@[i].height
                    &&& final(self)@[i].pos_x == old(self)@[i].pos_x
                    &&& final(self)@[i].pos_y == old(self)@[i].pos_y
                    &&& final(self)@[i].dependents@
                        == old(self)@[i].dependents@.push(content_id)
                }
            }),
    {
        match self.find(module_id) {
            Some(i) => {
                proof {
                    let c = index_of_id(self@, module_id);
                    assert(0 <= c < self@.len() && self@[c].id == module_id);
                    assert(c == i);
                }
                let mut j: usize = 0;
                let n: usize = self.windows[i].dependents.len();
                while j < n
                    invariant
                        *self == *old(self),
                        self.wf(),
                        i < self@.len(),
                        self@[i as int].id == module_id,
                        i == index_of_id(self@, module_id),
                        n == self@[i as int].dependents@.len(),
                        j <= n,
                        forall|k: int| 0 <= k < j
                            ==> self@[i as int].dependents@[k] != content_id,
                    decreases n - j,
                {
                    if self.windows[i].dependents[j] == content_id {
                        proof {
                            assert(self@[i as int].dependents@[j as int] == content_id);
                            assert(self@[i as int].dependents@.contains(content_id));
                        }
                        return false;
                    }
                    j = j + 1;
                }
                self.windows[i].dependents.push(content_id);
                true
            },
            None => false,
        }
    }

    /// Moves the window at position `i` to render-world position `(x, y)`;
    /// nothing else of it changes.
    pub fn set_position(&mut self, i: usize, x: i64, y: i64)
        requires
            old(self).wf(),
            i < old(self)@.len(),
        ensures
            final(self).wf(),
            final(self).next_module_id() == old(self).next_module_id(),
            final(self)@.len() == old(self)@.len(),
            forall|k: int| 0 <= k < old(self)@.len() && k != i ==> final(self)@[k] == old(self)@[k],
            final(self)@[i as int] == (ModuleWindow { pos_x: x, pos_y: y, ..old(self)@[i as int] }),
    {
        self.windows[i].pos_x = x;
        self.windows[i].pos_y = y;
    }

    /// Sets the current size of the window at position `i` to `(width,
    /// height)`; nothing else of it changes.
    pub fn set_size(&mut self, i: usize, width: u32, height: u32)
        requires
            old(self).wf(),
            i < old(self)@.len(),
        ensures
            final(self).wf(),
            final(self).next_module_id() == old(self).next_module_id(),
            final(self)@.len() == old(self)@.len(),
            forall|k: int| 0 <= k < old(self)@.len() && k != i ==> final(self)@[k] == old(self)@[k],
            final(self)@[i as int]
                == (ModuleWindow { width, height, ..old(self)@[i as int] }),
    {
        self.windows[i].width = width;
        self.windows[i].height = height;
    }
}

} // verus!
