//! Trusted boundary to the OS-level block/wake facility and to the memory
//! fences that order the primitives' atomic protocols. Nothing about thread
//! scheduling can be stated here: a blocked thread may be woken spuriously,
//! and a wake may find nobody parked, so these items carry no postconditions.

use core::sync::atomic::AtomicU32;
use vstd::prelude::*;

verus! {

/// Relies on `atomic_wait::wait`: blocks the calling thread while the atomic
/// holds `value`, and may also return spuriously without a wake. It returns no
/// value, so there is nothing further to state.
pub assume_specification[ atomic_wait::wait ](atomic: &AtomicU32, value: u32);

/// Relies on `atomic_wait::wake_all`: wakes every thread parked on the
/// atomic. Which of them makes progress is the scheduler's choice.
#[verifier::external_body]
pub(crate) fn wake_all(atomic: &AtomicU32) {
    atomic_wait::wake_all(atomic)
}

/// Relies on `core::sync::atomic::fence` with acquire ordering: establishes
/// the memory ordering the protocols need on a zero transition; it computes
/// nothing.
#[verifier::external_body]
pub(crate) fn fence_acquire() {
    core::sync::atomic::fence(core::sync::atomic::Ordering::Acquire)
}

} // verus!
