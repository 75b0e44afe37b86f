//! The identity slot and the handle side table.
//!
//! A native object instance carries one fixed slot naming its owning
//! controller. The slot is written exactly once, at construction, before
//! the object is first exposed to the native runtime, and there is no
//! operation that reassigns it — that is what makes recovery sound for
//! the object's whole lifetime.
//!
//! Instead of a raw address, the slot holds a small integer handle, and a
//! side table maps handles to the owning controllers. A handle whose
//! owner is gone is then a lookup miss the trampolines can observe,
//! rather than undefined behaviour.

use vstd::prelude::*;

verus! {

/// An opaque identifier naming a user-owned controller. The bridge only
/// stores and forwards it; it never manages the controller's lifetime.
pub type ControllerHandle = u64;

/// A runtime-allocated object of a dynamically declared class: the class
/// it was allocated from, its identity slot, and the auxiliary slot for
/// a cached background-colour reference.
pub struct NativeInstance {
    /// The registry position of the class the object was allocated from.
    class: usize,
    /// The identity slot. Written once, at construction; never
    /// reassigned. Private, so that no later write is possible.
    identity_slot: ControllerHandle,
    /// The auxiliary slot for a cached background-colour object.
    background_color: Option<u64>,
}

/// The instance that construction with the given class and handle
/// yields.
pub closed spec fn spec_new_instance(class: usize, handle: ControllerHandle) -> NativeInstance {
    NativeInstance { class, identity_slot: handle, background_color: None }
}

impl NativeInstance {
    /// The handle the identity slot holds.
    pub closed spec fn stored_handle(&self) -> ControllerHandle {
        self.identity_slot
    }

    /// The registry position of the class the object was allocated from.
    pub closed spec fn class_id(&self) -> usize {
        self.class
    }

    /// What the auxiliary background-colour slot holds.
    pub closed spec fn color_slot(&self) -> Option<u64> {
        self.background_color
    }

    /// Allocates an instance and writes the identity slot, before the
    /// object is exposed to the native runtime.
    pub fn new(class: usize, handle: ControllerHandle) -> (r: NativeInstance)
        ensures
            r == spec_new_instance(class, handle),
            r.class_id() == class,
            r.stored_handle() == handle,
            r.color_slot() is None,
    {
        NativeInstance { class, identity_slot: handle, background_color: None }
    }

    /// Caches a background-colour reference in the auxiliary slot. The
    /// identity slot is untouched.
    pub fn set_background_color(&mut self, color: u64)
        ensures
            *final(self) == spec_set_background_color(*old(self), color),
            final(self).class_id() == old(self).class_id(),
            final(self).stored_handle() == old(self).stored_handle(),
            final(self).color_slot() == Some(color),
    {
        self.background_color = Some(color);
    }

    /// Reads the auxiliary slot back: the cached background-colour
    /// reference, when one is set.
    pub fn background_color(&self) -> (r: Option<u64>)
        ensures
            r == self.color_slot(),
    {
        self.background_color
    }
}

/// Reads the identity slot back: the handle of the owning controller,
/// exactly as it was written at construction.
pub fn recover_controller(instance: &NativeInstance) -> (handle: ControllerHandle)
    ensures
        handle == instance.stored_handle(),
{
    instance.identity_slot
}

/// The instance after one write to the auxiliary slot.
pub closed spec fn spec_set_background_color(inst: NativeInstance, color: u64) -> NativeInstance {
    NativeInstance { background_color: Some(color), ..inst }
}

/// The instance after a whole sequence of auxiliary-slot writes — the
/// only mutation an instance ever sees.
pub open spec fn apply_aux_writes(inst: NativeInstance, writes: Seq<u64>) -> NativeInstance
    decreases writes.len(),
{
    if writes.len() == 0 {
        inst
    } else {
        apply_aux_writes(spec_set_background_color(inst, writes[0]), writes.drop_first())
    }
}

/// Law: a handle written into the identity slot at construction and read
/// back through recovery is bit-identical to the original, whatever else
/// happened to the instance in between — the auxiliary slot is the only
/// thing an instance's lifetime ever rewrites, and native relocation is
/// ruled out by the runtime's stable addressing.
pub proof fn lemma_identity_round_trip(
    class: usize,
    handle: ControllerHandle,
    writes: Seq<u64>,
)
    ensures
        apply_aux_writes(spec_new_instance(class, handle), writes).stored_handle() == handle,
{
    lemma_aux_writes_keep_handle(spec_new_instance(class, handle), writes);
}

/// Auxiliary-slot writes never touch the identity slot or the class.
pub proof fn lemma_aux_writes_keep_handle(inst: NativeInstance, writes: Seq<u64>)
    ensures
        apply_aux_writes(inst, writes).stored_handle() == inst.stored_handle(),
        apply_aux_writes(inst, writes).class_id() == inst.class_id(),
    decreases writes.len(),
{
    if writes.len() > 0 {
        lemma_aux_writes_keep_handle(spec_set_background_color(inst, writes[0]), writes.drop_first());
    }
}

/// The side table from handles to owning controllers. Handles are handed
/// out by the table itself and never reused, so every live handle names
/// at most one controller.
pub struct ControllerTable<T> {
    /// The registered controllers, each with its handle.
    pub entries: Vec<(ControllerHandle, T)>,
    /// The next handle to hand out.
    pub next_handle: u64,
}

impl<T> ControllerTable<T> {
    /// The handles currently registered, in registration order.
    pub open spec fn handles(&self) -> Seq<ControllerHandle> {
        self.entries@.map_values(|e: (ControllerHandle, T)| e.0)
    }

    /// Whether a handle names a registered controller.
    pub open spec fn contains_handle(&self, handle: ControllerHandle) -> bool {
        self.handles().contains(handle)
    }

    /// The position of a registered handle. Under well-formedness there
    /// is at most one, so the choice is determined.
    pub open spec fn handle_index(&self, handle: ControllerHandle) -> int {
        choose|i: int| 0 <= i < self.entries@.len() && self.entries@[i].0 == handle
    }

    /// The controller a registered handle names.
    pub open spec fn controller_at(&self, handle: ControllerHandle) -> T {
        self.entries@[self.handle_index(handle)].1
    }

    /// Well-formedness: every registered handle is below the next one to
    /// be handed out, so no handle is ever registered twice.
    pub open spec fn wf(&self) -> bool {
        &&& forall|i: int|
            0 <= i < self.entries@.len() ==> #[trigger] self.entries@[i].0 < self.next_handle
        &&& forall|i: int, j: int|
            0 <= i < j < self.entries@.len() ==> self.entries@[i].0 != self.entries@[j].0
    }

    /// An empty side table.
    pub fn new() -> (r: ControllerTable<T>)
        ensures
            r.wf(),
            r.entries@.len() == 0,
            forall|h: ControllerHandle| !r.contains_handle(h),
    {
        let r = ControllerTable { entries: Vec::new(), next_handle: 0 };
        proof {
            assert(forall|h: ControllerHandle| !r.handles().contains(h));
        }
        r
    }

    /// Registers a controller and hands out its fresh handle.
    pub fn register_controller(&mut self, controller: T) -> (handle: ControllerHandle)
        requires
            old(self).wf(),
            old(self).next_handle < u64::MAX,
        ensures
            final(self).wf(),
            handle == old(self).next_handle,
            final(self).contains_handle(handle),
            final(self).controller_at(handle) == controller,
            final(self).entries@ == old(self).entries@.push((handle, controller)),
            forall|h: ControllerHandle|
                #[trigger] final(self).contains_handle(h) <==> old(self).contains_handle(h) || h
                    == handle,
    {
        let handle = self.next_handle;
        self.entries.push((handle, controller));
        self.next_handle = self.next_handle + 1;
        proof {
            let n = self.entries@.len() - 1;
            assert(self.handles() =~= old(self).handles().push(handle));
            assert(self.entries@[n].0 == handle);
            assert(self.handles()[n] == handle);
            assert(self.contains_handle(handle));
            assert(forall|i: int| 0 <= i < n ==> self.entries@[i].0 != handle);
            lemma_handle_index_unique(self, handle, n);
            assert(forall|h: ControllerHandle|
                old(self).contains_handle(h) ==> #[trigger] self.contains_handle(h)) by {
                assert(forall|i: int|
                    0 <= i < n && old(self).entries@[i].0 == #[trigger] old(self).handles()[i]
                        ==> self.handles()[i] == old(self).handles()[i]);
            }
            assert(forall|h: ControllerHandle|
                #[trigger] self.contains_handle(h) && h != handle ==> old(self).contains_handle(
                    h,
                )) by {
                assert(forall|i: int|
                    0 <= i < n ==> old(self).handles()[i] == #[trigger] self.handles()[i]);
            }
        }
        handle
    }

    /// Looks a handle up: the owning controller when the handle is live,
    /// and a detectable miss otherwise.
    pub fn lookup(&self, handle: ControllerHandle) -> (r: Option<&T>)
        requires
            self.wf(),
        ensures
            match r {
                Some(c) => self.contains_handle(handle) && *c == self.controller_at(handle),
                None => !self.contains_handle(handle),
            },
    {
        let n = self.entries.len();
        let mut i: usize = 0;
        while i < n
            invariant
                n == self.entries@.len(),
                i <= n,
                self.wf(),
                forall|j: int| 0 <= j < i ==> self.entries@[j].0 != handle,
            decreases n - i,
        {
            let entry = &self.entries[i];
            if entry.0 == handle {
                proof {
                    assert(self.handles()[i as int] == handle);
                    lemma_handle_index_unique(self, handle, i as int);
                }
                return Some(&entry.1);
            }
            i = i + 1;
        }
        proof {
            assert(forall|j: int|
                0 <= j < self.handles().len() ==> #[trigger] self.handles()[j]
                    == self.entries@[j].0);
        }
        None
    }
}

/// Any position holding the handle is the handle's index.
pub proof fn lemma_handle_index_unique<T>(table: &ControllerTable<T>, handle: ControllerHandle, i: int)
    requires
        table.wf(),
        0 <= i < table.entries@.len(),
        table.entries@[i].0 == handle,
    ensures
        table.handle_index(handle) == i,
        table.contains_handle(handle),
        table.controller_at(handle) == table.entries@[i].1,
{
    assert(table.handles()[i] == handle);
    let j = table.handle_index(handle);
    assert(0 <= j < table.entries@.len() && table.entries@[j].0 == handle);
}

} // verus!
