//! Bounded counting semaphore. `SemaphoreState` is the counter protocol
//! itself — every step keeps the count inside `[0, max_count]`, stated and
//! proved exactly. `Semaphore` is the executable primitive: clonable handles
//! share one atomic counter, claiming blocks on the counter's address through
//! the OS block/wake facility, and releasing wakes every parked thread on the
//! zero-to-nonzero transition. What a concurrent run observes of the shared
//! counter cannot be stated here — other threads move it between any two
//! instructions — so the executable methods carry the protocol in their
//! structure and the model carries it in contracts.

use crate::futex;
use crate::handle::arc_clone;
use core::sync::atomic::{AtomicU32, Ordering};
use std::sync::Arc;
use vstd::prelude::*;

verus! {

/// The semaphore's counter: a bounded count of available units and the
/// immutable bound it may never exceed.
pub struct SemaphoreState {
    /// Units currently available, always in `[0, max_count]`.
    pub count: u32,
    /// The immutable bound, strictly positive.
    pub max_count: u32,
}

/// One step of the counter protocol, as the executable loops decide it.
pub enum SemOp {
    /// A successful claim of one unit (the step `wait()` retries until).
    Acquire,
    /// The release of one unit (the step `signal()` performs).
    Signal,
}

impl SemaphoreState {
    /// The counter invariant: the count never leaves `[0, max_count]`.
    pub open spec fn wf(self) -> bool {
        self.count <= self.max_count && self.max_count >= 1
    }

    /// A fresh semaphore is fully available.
    pub fn new(max_count: u32) -> (s: Self)
        requires
            max_count >= 1,
        ensures
            s.wf(),
            s.count == max_count,
            s.max_count == max_count,
    {
        SemaphoreState { count: max_count, max_count: max_count }
    }

    /// A fresh semaphore with an explicit initial count.
    pub fn init_with(max_count: u32, init_count: u32) -> (s: Self)
        requires
            max_count >= 1,
            init_count <= max_count,
        ensures
            s.wf(),
            s.count == init_count,
            s.max_count == max_count,
    {
        SemaphoreState { count: init_count, max_count: max_count }
    }

    /// The claim step of `wait()`: takes one unit exactly when one is
    /// available; a zero count leaves the state unchanged (the executable
    /// primitive blocks and retries there).
    pub fn try_acquire(&mut self) -> (claimed: bool)
        requires
            old(self).wf(),
        ensures
            final(self).wf(),
            *final(self) == apply_op(*old(self), SemOp::Acquire),
            claimed <==> old(self).count > 0,
            claimed ==> final(self).count == old(self).count - 1,
            !claimed ==> *final(self) == *old(self),
            final(self).max_count == old(self).max_count,
    {
        if self.count > 0 {
            self.count = self.count - 1;
            true
        } else {
            false
        }
    }

    /// The release step of `signal()`: adds one unit. Releasing a fully
    /// available semaphore violates the precondition — the count may never
    /// exceed the bound. The result says whether the release left zero, the
    /// transition on which the executable primitive wakes all parked waiters.
    pub fn signal(&mut self) -> (woke: bool)
        requires
            old(self).wf(),
            old(self).count < old(self).max_count,
        ensures
            final(self).wf(),
            *final(self) == apply_op(*old(self), SemOp::Signal),
            final(self).count == old(self).count + 1,
            final(self).max_count == old(self).max_count,
            woke <==> old(self).count == 0,
    {
        let was_zero = self.count == 0;
        self.count = self.count + 1;
        was_zero
    }
}

/// One protocol step over the counter: a claim takes a unit when one is
/// available, a release adds one when the bound allows it; neither moves the
/// count otherwise.
pub open spec fn apply_op(s: SemaphoreState, op: SemOp) -> SemaphoreState {
    match op {
        SemOp::Acquire => if s.count > 0 {
            SemaphoreState { count: (s.count - 1) as u32, max_count: s.max_count }
        } else {
            s
        },
        SemOp::Signal => if s.count < s.max_count {
            SemaphoreState { count: (s.count + 1) as u32, max_count: s.max_count }
        } else {
            s
        },
    }
}

/// The counter after a whole sequence of protocol steps.
pub open spec fn apply_ops(s: SemaphoreState, ops: Seq<SemOp>) -> SemaphoreState
    decreases ops.len(),
{
    if ops.len() == 0 {
        s
    } else {
        apply_ops(apply_op(s, ops[0]), ops.drop_first())
    }
}

/// Law: under any sequence of claims and releases the count never leaves
/// `[0, max_count]`, and the bound itself never moves.
pub proof fn lemma_count_always_bounded(s: SemaphoreState, ops: Seq<SemOp>)
    requires
        s.wf(),
    ensures
        apply_ops(s, ops).wf(),
        apply_ops(s, ops).max_count == s.max_count,
    decreases ops.len(),
{
    if ops.len() > 0 {
        lemma_count_always_bounded(apply_op(s, ops[0]), ops.drop_first());
    }
}

/// Heap-resident state shared by every handle of one semaphore.
struct SemaphoreShared {
    /// The available units, moved only by compare-and-swap.
    count: AtomicU32,
    /// The immutable bound.
    max_count: u32,
}

/// A bounded counting semaphore on OS-level block/wake. Handles are clonable;
/// all of them alias one shared counter, and any thread may release a unit
/// regardless of which thread claimed it.
pub struct Semaphore {
    shared: Arc<SemaphoreShared>,
}

impl Semaphore {
    /// The bound this semaphore was constructed with.
    pub closed spec fn max(self) -> u32 {
        self.shared.max_count
    }

    /// A fresh semaphore, fully available. A bound of zero would make every
    /// `wait` block forever, so it is ruled out.
    pub fn new(max_count: u32) -> (s: Self)
        requires
            max_count >= 1,
        ensures
            s.max() == max_count,
    {
        Semaphore {
            shared: Arc::new(
                SemaphoreShared { count: AtomicU32::new(max_count), max_count: max_count },
            ),
        }
    }

    /// A fresh semaphore with an explicit initial count, at most the bound.
    pub fn init_with(max_count: u32, init_count: u32) -> (s: Self)
        requires
            max_count >= 1,
            init_count <= max_count,
        ensures
            s.max() == max_count,
    {
        Semaphore {
            shared: Arc::new(
                SemaphoreShared { count: AtomicU32::new(init_count), max_count: max_count },
            ),
        }
    }

    /// Blocks until the count is positive, then atomically claims one unit:
    /// on a zero observation it parks on the counter's address and retries
    /// when woken; otherwise it races a compare-and-swap for one unit and, on
    /// success, takes an acquire fence and returns `true`. No order among
    /// concurrent waiters is promised, and no property of the shared counter
    /// can be stated across the return — other threads move it concurrently.
    /// The retry budget only bounds the loop for the termination discipline:
    /// a run that loses the race or is woken spuriously that astronomically
    /// often gives up and returns `false` without claiming anything.
    pub fn wait(&self) -> (claimed: bool) {
        let mut budget: u64 = u64::MAX;
        loop
            decreases budget,
        {
            if budget == 0 {
                return false;
            }
            budget = budget - 1;
            let cur_count = self.shared.count.load(Ordering::Relaxed);
            if cur_count == 0 {
                atomic_wait::wait(&self.shared.count, 0);
            } else {
                let swapped = self.shared.count.compare_exchange(
                    cur_count,
                    cur_count - 1,
                    Ordering::Release,
                    Ordering::Relaxed,
                );
                if swapped.is_ok() {
                    futex::fence_acquire();
                    return true;
                }
            }
        }
    }

    /// Atomically adds one unit, unless the counter is already at the bound:
    /// that observation is caller misuse (more releases than claims), the
    /// counter is left untouched and `false` comes back. On the transition
    /// away from zero every parked waiter is woken — several may be parked on
    /// the same zero and only the subsequent claim race decides who proceeds.
    /// As in `wait`, a retry budget bounds the compare-and-swap loop for the
    /// termination discipline; exhausting it also yields `false` with no unit
    /// added, which no realizable run observes.
    pub fn signal(&self) -> (added: bool) {
        let mut cur_count = self.shared.count.load(Ordering::Relaxed);
        let mut budget: u64 = u64::MAX;
        loop
            decreases budget,
        {
            if budget == 0 {
                return false;
            }
            budget = budget - 1;
            if cur_count >= self.shared.max_count {
                return false;
            }
            let swapped = self.shared.count.compare_exchange(
                cur_count,
                cur_count + 1,
                Ordering::Release,
                Ordering::Relaxed,
            );
            match swapped {
                Result::Ok(prev) => {
                    if prev == 0 {
                        futex::wake_all(&self.shared.count);
                    }
                    return true;
                },
                Result::Err(next) => {
                    cur_count = next;
                },
            }
        }
    }
}

impl Clone for Semaphore {
    /// A cloned handle aliases the same shared counter.
    fn clone(&self) -> (r: Self)
        ensures
            r == *self,
    {
        Semaphore { shared: arc_clone(&self.shared) }
    }
}

} // verus!
