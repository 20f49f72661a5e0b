//! The content-builder registry.
//!
//! A content builder is an external callback, identified here by a numeric
//! id, that populates a module's visual content given its assigned layer. A
//! class may have zero, one, or many builders; dispatch fans one spawn
//! notification out to every builder registered for the class, in
//! registration order. Running the callbacks is the host's job: the registry
//! only decides who is called and with what.

use vstd::prelude::*;
use crate::events::{BuilderCall, ModuleClass, SpawnNotification};

verus! {

/// One entry of the registry: `builder_id` wants to build content for
/// modules of `class`.
#[derive(Clone, Copy, PartialEq, Eq, Structural, Debug)]
pub struct BuilderRegistration {
    pub class: ModuleClass,
    pub builder_id: u64,
}

/// The builder ids registered for `class` among `regs`, in registration
/// order.
pub open spec fn builders_for(regs: Seq<BuilderRegistration>, class: ModuleClass) -> Seq<u64>
    decreases regs.len(),
{
    if regs.len() == 0 {
        Seq::empty()
    } else {
        let prefix = builders_for(regs.drop_last(), class);
        if regs.last().class == class {
            prefix.push(regs.last().builder_id)
        } else {
            prefix
        }
    }
}

/// Maps a module class to the ordered list of builder callbacks registered
/// for it.
pub struct ModuleRegistry {
    regs: Vec<BuilderRegistration>,
}

impl ModuleRegistry {
    /// Every registration made so far, oldest first.
    pub closed spec fn registrations(self) -> Seq<BuilderRegistration> {
        self.regs@
    }

    /// A registry with no builders: every dispatch fans out to nobody.
    pub fn new() -> (r: ModuleRegistry)
        ensures
            r.registrations() == Seq::<BuilderRegistration>::empty(),
    {
        ModuleRegistry { regs: Vec::new() }
    }

    /// Appends one builder for `class`; builders registered earlier keep
    /// their place in the dispatch order.
    pub fn register(&mut self, class: ModuleClass, builder_id: u64)
        ensures
            final(self).registrations()
                == old(self).registrations().push(BuilderRegistration { class, builder_id }),
    {
        self.regs.push(BuilderRegistration { class, builder_id });
    }

    /// Plans the fan-out for one spawn: one call per builder registered for
    /// `class`, in registration order, each carrying the same read-only
    /// notification.
    pub fn dispatch(&self, module_id: u64, class: ModuleClass, layer: u32)
        -> (calls: Vec<BuilderCall>)
        ensures
            calls@.len() == builders_for(self.registrations(), class).len(),
            forall|k: int| 0 <= k < calls@.len() ==> calls@[k] == (BuilderCall {
                builder_id: builders_for(self.registrations(), class)[k],
                notification: SpawnNotification { module_id, class, layer },
            }),
    {
        let notification = SpawnNotification { module_id, class, layer };
        let mut calls: Vec<BuilderCall> = Vec::new();
        let mut i: usize = 0;
        while i < self.regs.len()
            invariant
                i <= self.regs.len(),
                notification == (SpawnNotification { module_id, class, layer }),
                calls@.len() == builders_for(self.regs@.take(i as int), class).len(),
                forall|k: int| 0 <= k < calls@.len() ==> calls@[k] == (BuilderCall {
                    builder_id: builders_for(self.regs@.take(i as int), class)[k],
                    notification: SpawnNotification { module_id, class, layer },
                }),
            decreases self.regs.len() - i,
        {
            proof {
                assert(self.regs@.take(i + 1).drop_last() =~= self.regs@.take(i as int));
                assert(self.regs@.take(i + 1).last() == self.regs@[i as int]);
            }
            if self.regs[i].class == class {
                calls.push(BuilderCall { builder_id: self.regs[i].builder_id, notification });
            }
            i = i + 1;
        }
        proof {
            assert(self.regs@.take(self.regs@.len() as int) =~= self.regs@);
        }
        calls
    }
}

/// Does any of the planned calls target a builder of `class`? Mirrors the
/// run-condition that gates a class's spawn handling on the presence of a
/// matching notification.
pub fn any_call_for_class(calls: &Vec<BuilderCall>, class: ModuleClass) -> (r: bool)
    ensures
        r <==> exists|i: int| 0 <= i < calls@.len() && calls@[i].notification.class == class,
{
    let mut i: usize = 0;
    while i < calls.len()
        invariant
            i <= calls.len(),
            forall|j: int| 0 <= j < i ==> calls@[j].notification.class != class,
        decreases calls.len() - i,
    {
        if calls[i].notification.class == class {
            return true;
        }
        i = i + 1;
    }
    false
}

} // verus!
