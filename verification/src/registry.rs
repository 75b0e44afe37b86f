//! The class registry: once-only construction of native class
//! descriptors, keyed by a logical role and a controller type.
//!
//! The native runtime lets the bridge declare new classes at run time. A
//! declared class carries the identity slot, any auxiliary slots, and the
//! method table of callback selectors for its role. Declaring the same
//! class twice is an error on the native side, so registration must be
//! idempotent: the first caller constructs and installs the descriptor,
//! every later caller receives the same one. Callers reach the registry
//! through a once-style primitive that serialises first use, so any group
//! of concurrent callers is observed here as some sequence of calls; the
//! laws at the end of this module quantify over every such sequence.

use vstd::prelude::*;

verus! {

/// The logical role a dynamically declared class plays in the bridge.
#[derive(Clone, Copy, PartialEq, Eq, Structural, Debug)]
pub enum Role {
    /// A view that receives drag-and-drop callbacks.
    View,
    /// The application subclass itself.
    Application,
    /// The application delegate that receives lifecycle callbacks.
    Delegate,
}

/// What a class descriptor is keyed by: its role together with a
/// caller-supplied token naming the concrete controller type the
/// trampolines forward to.
#[derive(Clone, Copy, PartialEq, Eq, Structural, Debug)]
pub struct ClassKey {
    /// The role of the declared class.
    pub role: Role,
    /// A token for the concrete controller type.
    pub controller_type: u64,
}

/// The named instance-variable slots a declared class carries.
#[derive(Clone, Copy, PartialEq, Eq, Structural, Debug)]
pub enum SlotKind {
    /// The identity slot: the handle of the owning controller.
    ControllerPointer,
    /// A cached reference to a background-colour object.
    BackgroundColor,
}

/// The callback selectors a declared class answers to.
#[derive(Clone, Copy, PartialEq, Eq, Structural, Debug)]
pub enum SelectorKind {
    /// Coordinates are judged from the top left.
    IsFlipped,
    /// The view draws through its backing layer.
    WantsUpdateLayer,
    /// The backing layer should refresh its background colour.
    UpdateLayer,
    /// A drag session entered the view.
    DraggingEntered,
    /// The view is asked to prepare for the drop.
    PrepareForDragOperation,
    /// The view is asked to perform the drop.
    PerformDragOperation,
    /// A drag session left the view.
    DraggingExited,
    /// The application finished launching.
    DidFinishLaunching,
    /// The application is asked whether it should terminate.
    ShouldTerminate,
}

/// The slots a class with the given role declares.
pub open spec fn role_slots(role: Role) -> Seq<SlotKind> {
    match role {
        Role::View => seq![SlotKind::ControllerPointer, SlotKind::BackgroundColor],
        Role::Application => Seq::empty(),
        Role::Delegate => seq![SlotKind::ControllerPointer],
    }
}

/// The selectors a class with the given role answers to.
pub open spec fn role_selectors(role: Role) -> Seq<SelectorKind> {
    match role {
        Role::View => seq![
            SelectorKind::IsFlipped,
            SelectorKind::WantsUpdateLayer,
            SelectorKind::UpdateLayer,
            SelectorKind::DraggingEntered,
            SelectorKind::PrepareForDragOperation,
            SelectorKind::PerformDragOperation,
            SelectorKind::DraggingExited,
        ],
        Role::Application => Seq::empty(),
        Role::Delegate => seq![SelectorKind::DidFinishLaunching, SelectorKind::ShouldTerminate],
    }
}

/// A one-time-constructed template for a native class: its key, its
/// instance-variable slots and its method table.
pub struct ClassDescriptor {
    /// The key the descriptor was registered under.
    pub key: ClassKey,
    /// The instance-variable slots the class declares.
    pub slots: Vec<SlotKind>,
    /// The callback selectors the class answers to.
    pub selectors: Vec<SelectorKind>,
}

impl ClassDescriptor {
    /// A descriptor is well formed when its slots and method table are
    /// exactly those of its role.
    pub open spec fn wf(&self) -> bool {
        &&& self.slots@ == role_slots(self.key.role)
        &&& self.selectors@ == role_selectors(self.key.role)
    }
}

/// Builds the descriptor for a key: the identity slot and the method
/// table its role calls for.
pub fn make_descriptor(key: ClassKey) -> (d: ClassDescriptor)
    ensures
        d.key == key,
        d.wf(),
{
    let mut slots: Vec<SlotKind> = Vec::new();
    let mut selectors: Vec<SelectorKind> = Vec::new();
    match key.role {
        Role::View => {
            slots.push(SlotKind::ControllerPointer);
            slots.push(SlotKind::BackgroundColor);
            selectors.push(SelectorKind::IsFlipped);
            selectors.push(SelectorKind::WantsUpdateLayer);
            selectors.push(SelectorKind::UpdateLayer);
            selectors.push(SelectorKind::DraggingEntered);
            selectors.push(SelectorKind::PrepareForDragOperation);
            selectors.push(SelectorKind::PerformDragOperation);
            selectors.push(SelectorKind::DraggingExited);
        },
        Role::Application => {},
        Role::Delegate => {
            slots.push(SlotKind::ControllerPointer);
            selectors.push(SelectorKind::DidFinishLaunching);
            selectors.push(SelectorKind::ShouldTerminate);
        },
    }
    proof {
        assert(slots@ =~= role_slots(key.role));
        assert(selectors@ =~= role_selectors(key.role));
    }
    ClassDescriptor { key, slots, selectors }
}

/// Whether a sequence of keys holds no key twice.
pub open spec fn unique_keys(ks: Seq<ClassKey>) -> bool {
    forall|i: int, j: int| 0 <= i < j < ks.len() ==> ks[i] != ks[j]
}

/// The position of a key in a sequence of registered keys. Under
/// [`unique_keys`] there is at most one such position, so the choice is
/// determined.
pub open spec fn key_index(ks: Seq<ClassKey>, k: ClassKey) -> int {
    choose|i: int| 0 <= i < ks.len() && ks[i] == k
}

/// The keys after one registration: unchanged when the key is already
/// present, extended by it otherwise.
pub open spec fn spec_register(ks: Seq<ClassKey>, k: ClassKey) -> Seq<ClassKey> {
    if ks.contains(k) {
        ks
    } else {
        ks.push(k)
    }
}

/// Any position holding the key is the key's index.
pub proof fn lemma_key_index_unique(ks: Seq<ClassKey>, k: ClassKey, i: int)
    requires
        unique_keys(ks),
        0 <= i < ks.len(),
        ks[i] == k,
    ensures
        key_index(ks, k) == i,
{
    let j = key_index(ks, k);
    assert(0 <= j < ks.len() && ks[j] == k);
}

/// The process-wide table of class descriptors that have been
/// constructed so far. Entries are only ever appended, never replaced or
/// removed, which is what keeps every caller's descriptor stable.
pub struct ClassRegistry {
    /// The descriptors, in order of first registration.
    pub entries: Vec<ClassDescriptor>,
}

impl ClassRegistry {
    /// The keys of the registered descriptors, in registration order.
    pub open spec fn keys(&self) -> Seq<ClassKey> {
        self.entries@.map_values(|d: ClassDescriptor| d.key)
    }

    /// Well-formedness: no key is registered twice, and every descriptor
    /// carries exactly what its role calls for.
    pub open spec fn wf(&self) -> bool {
        &&& unique_keys(self.keys())
        &&& forall|i: int| 0 <= i < self.entries@.len() ==> #[trigger] self.entries@[i].wf()
    }

    /// An empty registry, before any first use.
    pub fn new() -> (r: ClassRegistry)
        ensures
            r.wf(),
            r.entries@.len() == 0,
            r.keys() == Seq::<ClassKey>::empty(),
    {
        let r = ClassRegistry { entries: Vec::new() };
        proof {
            assert(r.keys() =~= Seq::<ClassKey>::empty());
        }
        r
    }

    /// Registers the class for a key, or fetches it when it is already
    /// registered: the once-only "register or fetch" operation. The
    /// returned index names the descriptor and never changes afterwards,
    /// so every caller for the same key observes the same descriptor.
    pub fn register_class(&mut self, key: ClassKey) -> (idx: usize)
        requires
            old(self).wf(),
            old(self).entries@.len() < usize::MAX,
        ensures
            final(self).wf(),
            final(self).keys() == spec_register(old(self).keys(), key),
            final(self).keys().contains(key),
            idx < final(self).entries@.len(),
            final(self).keys()[idx as int] == key,
            final(self).entries@[idx as int].key == key,
            final(self).entries@[idx as int].wf(),
            idx as int == key_index(final(self).keys(), key),
            old(self).keys().contains(key) ==> *final(self) == *old(self),
            !old(self).keys().contains(key) ==> final(self).entries@.len() == old(
                self,
            ).entries@.len() + 1,
            forall|i: int|
                0 <= i < old(self).entries@.len() ==> final(self).entries@[i] == old(
                    self,
                ).entries@[i],
    {
        let n = self.entries.len();
        let mut i: usize = 0;
        while i < n
            invariant
                n == self.entries@.len(),
                i <= n,
                forall|j: int| 0 <= j < i ==> self.keys()[j] != key,
                old(self).wf(),
                *self == *old(self),
            decreases n - i,
        {
            if self.entries[i].key.role == key.role && self.entries[i].key.controller_type
                == key.controller_type {
                proof {
                    assert(self.keys()[i as int] == key);
                    lemma_key_index_unique(self.keys(), key, i as int);
                    assert(self.keys().contains(key));
                    assert(spec_register(old(self).keys(), key) =~= self.keys());
                }
                return i;
            }
            i = i + 1;
        }
        proof {
            assert(forall|j: int|
                0 <= j < self.keys().len() ==> self.keys()[j] == #[trigger] self.entries@[j].key);
            assert(!self.keys().contains(key));
        }
        let d = make_descriptor(key);
        self.entries.push(d);
        proof {
            assert(self.keys() =~= old(self).keys().push(key));
            assert(self.keys()[n as int] == key);
            assert(unique_keys(self.keys()));
            lemma_key_index_unique(self.keys(), key, n as int);
        }
        n
    }
}

/// Registers the view class for a controller type: the class whose
/// descriptor declares the identity slot, the background-colour slot and
/// the drag-and-drop method table.
pub fn register_view_class(registry: &mut ClassRegistry, controller_type: u64) -> (idx: usize)
    requires
        old(registry).wf(),
        old(registry).entries@.len() < usize::MAX,
    ensures
        final(registry).wf(),
        final(registry).keys() == spec_register(
            old(registry).keys(),
            (ClassKey { role: Role::View, controller_type }),
        ),
        idx < final(registry).entries@.len(),
        final(registry).entries@[idx as int].key == (ClassKey {
            role: Role::View,
            controller_type,
        }),
        final(registry).entries@[idx as int].slots@ == role_slots(Role::View),
        final(registry).entries@[idx as int].selectors@ == role_selectors(Role::View),
        idx as int == key_index(
            final(registry).keys(),
            (ClassKey { role: Role::View, controller_type }),
        ),
{
    registry.register_class(ClassKey { role: Role::View, controller_type })
}

/// The keys after a whole sequence of registration calls.
pub open spec fn run_registers(ks0: Seq<ClassKey>, ops: Seq<ClassKey>) -> Seq<ClassKey>
    decreases ops.len(),
{
    if ops.len() == 0 {
        ks0
    } else {
        run_registers(spec_register(ks0, ops[0]), ops.drop_first())
    }
}

/// How many positions of a key sequence hold a key.
pub open spec fn count_key(ks: Seq<ClassKey>, k: ClassKey) -> int
    decreases ks.len(),
{
    if ks.len() == 0 {
        0
    } else {
        (if ks[0] == k {
            1int
        } else {
            0int
        }) + count_key(ks.drop_first(), k)
    }
}

/// In a duplicate-free key sequence, a key is counted once when present
/// and not at all otherwise.
pub proof fn lemma_count_key_unique(ks: Seq<ClassKey>, k: ClassKey)
    requires
        unique_keys(ks),
    ensures
        count_key(ks, k) == if ks.contains(k) {
            1int
        } else {
            0int
        },
    decreases ks.len(),
{
    if ks.len() > 0 {
        let rest = ks.drop_first();
        assert(unique_keys(rest)) by {
            assert(forall|i: int, j: int|
                0 <= i < j < rest.len() ==> rest[i] == ks[i + 1] && rest[j] == ks[j + 1]);
        }
        lemma_count_key_unique(rest, k);
        if ks[0] == k {
            assert(!rest.contains(k)) by {
                if rest.contains(k) {
                    let i = choose|i: int| 0 <= i < rest.len() && rest[i] == k;
                    assert(ks[i + 1] == k);
                }
            }
            assert(ks.contains(k));
        } else {
            if ks.contains(k) {
                let i = choose|i: int| 0 <= i < ks.len() && ks[i] == k;
                assert(rest[i - 1] == k);
                assert(rest.contains(k));
            }
            if rest.contains(k) {
                let i = choose|i: int| 0 <= i < rest.len() && rest[i] == k;
                assert(ks[i + 1] == k);
            }
        }
    }
}

/// One registration keeps the keys duplicate-free, keeps every key that
/// was present, and adds the registered key.
pub proof fn lemma_register_step(ks: Seq<ClassKey>, k: ClassKey)
    requires
        unique_keys(ks),
    ensures
        unique_keys(spec_register(ks, k)),
        spec_register(ks, k).contains(k),
        forall|k2: ClassKey| ks.contains(k2) ==> spec_register(ks, k).contains(k2),
        ks.is_prefix_of(spec_register(ks, k)),
{
    let ks2 = spec_register(ks, k);
    if ks.contains(k) {
        assert(ks.is_prefix_of(ks2));
    } else {
        assert(ks2[ks.len() as int] == k);
        assert(forall|i: int| 0 <= i < ks.len() ==> ks2[i] == ks[i]);
        assert(forall|k2: ClassKey| ks.contains(k2) ==> ks2.contains(k2)) by {
            assert(forall|i: int| 0 <= i < ks.len() && ks2[i] == #[trigger] ks[i] ==> ks2.contains(ks[i]));
        }
        assert(unique_keys(ks2)) by {
            assert(forall|i: int| 0 <= i < ks.len() ==> ks2[i] != k) by {
                assert(forall|i: int|
                    0 <= i < ks.len() && #[trigger] ks[i] == k ==> ks.contains(k));
            }
        }
    }
}

/// A whole run of registrations keeps the keys duplicate-free, only ever
/// extends them, and registers every requested key.
pub proof fn lemma_run_registers(ks0: Seq<ClassKey>, ops: Seq<ClassKey>)
    requires
        unique_keys(ks0),
    ensures
        unique_keys(run_registers(ks0, ops)),
        ks0.is_prefix_of(run_registers(ks0, ops)),
        forall|k: ClassKey|
            run_registers(ks0, ops).contains(k) <==> ks0.contains(k) || ops.contains(k),
    decreases ops.len(),
{
    if ops.len() == 0 {
        assert(ks0.is_prefix_of(ks0));
    } else {
        let k0 = ops[0];
        let ks1 = spec_register(ks0, k0);
        lemma_register_step(ks0, k0);
        lemma_run_registers(ks1, ops.drop_first());
        assert(ks0.is_prefix_of(run_registers(ks0, ops))) by {
            assert(ks0.is_prefix_of(ks1));
            assert(ks1.is_prefix_of(run_registers(ks1, ops.drop_first())));
        }
        assert(forall|k: ClassKey|
            ops.contains(k) <==> k == k0 || ops.drop_first().contains(k)) by {
            assert(forall|i: int|
                1 <= i < ops.len() ==> ops.drop_first()[i - 1] == #[trigger] ops[i]);
            assert(forall|i: int|
                0 <= i < ops.drop_first().len() ==> #[trigger] ops.drop_first()[i] == ops[i + 1]);
        }
    }
}

/// Law: under any sequence of registration calls — however many callers
/// raced to make them — a key that was requested at least once ends up
/// with exactly one constructed descriptor.
pub proof fn lemma_register_class_once(ks0: Seq<ClassKey>, ops: Seq<ClassKey>, k: ClassKey)
    requires
        unique_keys(ks0),
        ks0.contains(k) || ops.contains(k),
    ensures
        count_key(run_registers(ks0, ops), k) == 1,
{
    lemma_run_registers(ks0, ops);
    lemma_count_key_unique(run_registers(ks0, ops), k);
}

/// In a duplicate-free extension, the index of a key that was already
/// present does not move.
pub proof fn lemma_key_index_stable(ks1: Seq<ClassKey>, ks2: Seq<ClassKey>, k: ClassKey)
    requires
        ks1.is_prefix_of(ks2),
        unique_keys(ks2),
        ks1.contains(k),
    ensures
        ks2.contains(k),
        key_index(ks1, k) == key_index(ks2, k),
{
    let i = choose|i: int| 0 <= i < ks1.len() && ks1[i] == k;
    assert(ks2[i] == k);
    assert(unique_keys(ks1)) by {
        assert(forall|a: int, b: int|
            0 <= a < b < ks1.len() ==> ks1[a] == ks2[a] && ks1[b] == ks2[b]);
    }
    lemma_key_index_unique(ks1, k, i);
    lemma_key_index_unique(ks2, k, i);
}

/// Law: every caller that registered the same key observes the same
/// descriptor. After any two prefixes of the run in which the key has
/// already been requested, the key names the same registry position —
/// and positions, once filled, are never overwritten, so the descriptors
/// are one and the same.
pub proof fn lemma_register_class_agreement(
    ks0: Seq<ClassKey>,
    ops: Seq<ClassKey>,
    k: ClassKey,
    m: int,
    n: int,
)
    requires
        unique_keys(ks0),
        0 <= m <= n <= ops.len(),
        ks0.contains(k) || ops.take(m).contains(k),
    ensures
        run_registers(ks0, ops.take(m)).contains(k),
        key_index(run_registers(ks0, ops.take(m)), k) == key_index(
            run_registers(ks0, ops.take(n)),
            k,
        ),
{
    lemma_run_registers(ks0, ops.take(m));
    let ksm = run_registers(ks0, ops.take(m));
    let ksn = run_registers(ks0, ops.take(n));
    lemma_run_registers_split(ks0, ops.take(m), ops.subrange(m, n));
    assert(ops.take(m) + ops.subrange(m, n) =~= ops.take(n));
    lemma_run_registers(ksm, ops.subrange(m, n));
    lemma_key_index_stable(ksm, ksn, k);
}

/// Running two batches of registrations one after the other is the same
/// as running their concatenation.
pub proof fn lemma_run_registers_split(ks0: Seq<ClassKey>, ops1: Seq<ClassKey>, ops2: Seq<ClassKey>)
    ensures
        run_registers(ks0, ops1 + ops2) == run_registers(run_registers(ks0, ops1), ops2),
    decreases ops1.len(),
{
    if ops1.len() == 0 {
        assert(ops1 + ops2 =~= ops2);
    } else {
        let ks1 = spec_register(ks0, ops1[0]);
        assert((ops1 + ops2).drop_first() =~= ops1.drop_first() + ops2);
        lemma_run_registers_split(ks1, ops1.drop_first(), ops2);
    }
}

} // verus!
