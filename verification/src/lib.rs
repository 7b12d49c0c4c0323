//! Low-level concurrent building blocks: a versioned value cell with
//! read-copy-update style deferred reclamation, a bounded counting semaphore
//! built on OS-level block/wake, and a LIFO stack guarded by a binary
//! semaphore. The shared-ownership discipline they rely on is modelled and
//! proved in `handle`.

mod futex;
pub mod handle;
pub mod rcu;
pub mod semaphore;
pub mod stack;
