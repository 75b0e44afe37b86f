//! Shared-ownership bookkeeping for native objects.
//!
//! The bridge wraps each native object it retains in a shared-ownership
//! wrapper: cloning the wrapper raises the shared count, dropping one
//! lowers it, and only the drop of the last owner sends the final
//! release that gives the object back to the native runtime. True
//! singletons — the shared application object, the one top-level menu —
//! are kept alive by the runtime itself for the process's lifetime, so
//! their wrappers never send that final release while the singleton
//! remains installed.

use vstd::prelude::*;

verus! {

/// The ownership state the bridge keeps for one native object: how many
/// wrapper owners are alive, whether the runtime holds the object as a
/// process singleton, and how many final releases have been sent.
pub struct SharedObject {
    /// How many wrapper owners are alive.
    pub owners: u64,
    /// Whether the native runtime itself keeps the object alive.
    pub singleton: bool,
    /// How many final releases have been sent to the runtime.
    pub releases: u64,
}

impl SharedObject {
    /// Retains a native object for the first time: one owner, no final
    /// release sent.
    pub fn retain_new(singleton: bool) -> (r: SharedObject)
        ensures
            r == fresh_object(singleton),
            r.owners == 1,
            r.singleton == singleton,
            r.releases == 0,
    {
        SharedObject { owners: 1, singleton, releases: 0 }
    }

    /// Clones a wrapper: one more owner, nothing released.
    pub fn clone_owner(&mut self)
        requires
            old(self).owners >= 1,
            old(self).owners < u64::MAX,
        ensures
            final(self).owners == old(self).owners + 1,
            final(self).singleton == old(self).singleton,
            final(self).releases == old(self).releases,
    {
        self.owners = self.owners + 1;
    }

    /// Drops a wrapper: one owner fewer, and — only when this was the
    /// last owner of a non-singleton object — exactly one final release.
    pub fn drop_owner(&mut self)
        requires
            old(self).owners >= 1,
            old(self).releases < u64::MAX,
        ensures
            final(self).owners == old(self).owners - 1,
            final(self).singleton == old(self).singleton,
            final(self).releases == old(self).releases + (
            if old(self).owners == 1 && !old(self).singleton {
                1int
            } else {
                0int
            }),
    {
        if self.owners == 1 && !self.singleton {
            self.releases = self.releases + 1;
        }
        self.owners = self.owners - 1;
    }
}

/// The ownership state of a freshly retained object: one owner, no
/// final release sent.
pub open spec fn fresh_object(singleton: bool) -> SharedObject {
    SharedObject { owners: 1, singleton, releases: 0 }
}

/// One wrapper-level ownership event.
#[derive(Clone, Copy, PartialEq, Eq, Structural, Debug)]
pub enum OwnerOp {
    /// A wrapper was cloned.
    Duplicate,
    /// A wrapper was dropped.
    Discard,
}

/// The ownership state after one event.
pub open spec fn owner_op_apply(s: SharedObject, op: OwnerOp) -> SharedObject {
    match op {
        OwnerOp::Duplicate => SharedObject {
            owners: (s.owners + 1) as u64,
            singleton: s.singleton,
            releases: s.releases,
        },
        OwnerOp::Discard => SharedObject {
            owners: (s.owners - 1) as u64,
            singleton: s.singleton,
            releases: if s.owners == 1 && !s.singleton {
                (s.releases + 1) as u64
            } else {
                s.releases
            },
        },
    }
}

/// Whether a sequence of events can happen from a state: every event
/// finds at least one live owner, and the counters stay in range.
pub open spec fn owner_ops_valid(s: SharedObject, ops: Seq<OwnerOp>) -> bool
    decreases ops.len(),
{
    ops.len() == 0 || {
        &&& s.owners >= 1
        &&& s.owners < u64::MAX
        &&& s.releases < u64::MAX
        &&& owner_ops_valid(owner_op_apply(s, ops[0]), ops.drop_first())
    }
}

/// The ownership state after a whole sequence of events.
pub open spec fn run_owner_ops(s: SharedObject, ops: Seq<OwnerOp>) -> SharedObject
    decreases ops.len(),
{
    if ops.len() == 0 {
        s
    } else {
        run_owner_ops(owner_op_apply(s, ops[0]), ops.drop_first())
    }
}

/// While owners remain, no final release has been sent; once the last
/// owner is gone, exactly one has — for a non-singleton. A singleton
/// never sees one.
pub proof fn lemma_owner_invariant(s: SharedObject, ops: Seq<OwnerOp>)
    requires
        owner_ops_valid(s, ops),
        s.owners >= 1,
        s.releases == 0,
    ensures
        run_owner_ops(s, ops).singleton == s.singleton,
        run_owner_ops(s, ops).releases == if run_owner_ops(s, ops).owners == 0 && !s.singleton {
            1int
        } else {
            0int
        },
    decreases ops.len(),
{
    if ops.len() == 0 {
        assert(run_owner_ops(s, ops) == s);
    } else {
        let s1 = owner_op_apply(s, ops[0]);
        let rest = ops.drop_first();
        assert(run_owner_ops(s, ops) == run_owner_ops(s1, rest));
        assert(owner_ops_valid(s1, rest));
        match ops[0] {
            OwnerOp::Duplicate => {
                assert(s1.owners == s.owners + 1);
                lemma_owner_invariant(s1, rest);
            },
            OwnerOp::Discard => {
                if s.owners == 1 {
                    assert(s1.owners == 0);
                    if rest.len() == 0 {
                        assert(run_owner_ops(s1, rest) == s1);
                    } else {
                        assert(!owner_ops_valid(s1, rest));
                    }
                } else {
                    assert(s1.owners == s.owners - 1 >= 1);
                    assert(s1.releases == 0);
                    lemma_owner_invariant(s1, rest);
                }
            },
        }
    }
}

/// Law: starting from a freshly retained non-singleton object, any
/// possible sequence of wrapper clones and drops whose last drop removes
/// the last owner sends exactly one final release.
pub proof fn lemma_last_owner_releases_once(ops: Seq<OwnerOp>)
    requires
        owner_ops_valid(fresh_object(false), ops),
        run_owner_ops(fresh_object(false), ops).owners == 0,
    ensures
        run_owner_ops(fresh_object(false), ops).releases == 1,
{
    lemma_owner_invariant(fresh_object(false), ops);
}

/// Law: a wrapper around a registered singleton never sends a final
/// release, whatever sequence of clones and drops its owners perform,
/// for as long as the process's singleton remains installed.
pub proof fn lemma_singleton_never_released(ops: Seq<OwnerOp>)
    requires
        owner_ops_valid(fresh_object(true), ops),
    ensures
        run_owner_ops(fresh_object(true), ops).releases == 0,
{
    lemma_owner_invariant(fresh_object(true), ops);
}

} // verus!
