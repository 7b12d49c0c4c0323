//! Shared-handle infrastructure: every primitive in this crate hands out
//! clonable handles that alias one heap-resident shared state, destroyed
//! exactly once when the last handle is released. The executable handles use
//! `Arc` for that aliasing; the counting discipline itself — increment on
//! clone, decrement on release, destruction exactly on the decrement that
//! observes the count reach zero — is stated and proved here on `RefCount`.

use std::sync::Arc;
use vstd::prelude::*;

verus! {

/// Relies on `alloc::sync::Arc::clone`: the returned handle shares the
/// caller's allocation, so it carries a value equal to the caller's.
#[verifier::external_body]
pub(crate) fn arc_clone<T>(a: &Arc<T>) -> (r: Arc<T>)
    ensures
        r == *a,
{
    Arc::clone(a)
}

/// The reference-counting discipline of a shared state: the number of owning
/// handles, raised by one on every clone and lowered by one on every release.
/// The release that lowers the count to zero is the one — and the only one —
/// after which the shared state must be destroyed.
pub struct RefCount {
    count: u64,
}

impl RefCount {
    /// Number of live owning handles.
    pub closed spec fn owners(self) -> nat {
        self.count as nat
    }

    /// A fresh shared state starts with exactly one owning handle.
    pub fn new() -> (r: Self)
        ensures
            r.owners() == 1,
    {
        RefCount { count: 1 }
    }

    /// Cloning a handle adds one owner to the same shared state.
    pub fn clone_handle(&mut self)
        requires
            old(self).owners() >= 1,
            old(self).owners() < u64::MAX,
        ensures
            final(self).owners() == old(self).owners() + 1,
    {
        self.count = self.count + 1;
    }

    /// Releasing a handle removes one owner. The result says whether this
    /// release was the last one, i.e. whether the caller must now destroy the
    /// shared state: that holds exactly when the count goes from one to zero.
    pub fn release(&mut self) -> (destroy: bool)
        requires
            old(self).owners() >= 1,
        ensures
            final(self).owners() == old(self).owners() - 1,
            destroy <==> old(self).owners() == 1,
            destroy <==> final(self).owners() == 0,
    {
        self.count = self.count - 1;
        self.count == 0
    }
}

/// How many releases report a destruction when `releases` handles are
/// released one after another, starting from `owners` live owners.
pub open spec fn destructions(owners: nat, releases: nat) -> nat
    decreases releases,
{
    if releases == 0 {
        0
    } else {
        (if owners == 1 {
            1nat
        } else {
            0nat
        }) + destructions(
            if owners >= 1 {
                (owners - 1) as nat
            } else {
                0nat
            },
            (releases - 1) as nat,
        )
    }
}

/// Law: releasing every one of the live handles destroys the shared state
/// exactly once — the destruction happens on the final release and on no
/// other.
pub proof fn lemma_release_all_destroys_once(owners: nat, releases: nat)
    requires
        owners == releases,
        owners >= 1,
    ensures
        destructions(owners, releases) == 1,
    decreases releases,
{
    if owners == 1 {
        assert(destructions((owners - 1) as nat, (releases - 1) as nat) == 0);
    } else {
        lemma_release_all_destroys_once((owners - 1) as nat, (releases - 1) as nat);
    }
}

/// Law: cloning a fresh handle `n` times yields `n + 1` owners, and releasing
/// all `n + 1` of them triggers exactly one destruction of the shared state.
pub proof fn lemma_clone_then_release_all(n: nat)
    ensures
        destructions(n + 1, n + 1) == 1,
{
    lemma_release_all_destroys_once(n + 1, n + 1);
}

} // verus!
