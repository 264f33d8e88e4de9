//! Several independently typed payloads protected by one shared
//! reader/writer lock.
//!
//! A [`SharedRwLock`] owns one payload and shares an exclusion primitive
//! with the sibling wrappers created through
//! [`SharedRwLock::new_with_same_lock`].  A guard obtained from one wrapper
//! in such a lock domain can be composed into a guard for a sibling without
//! acquiring the lock again, and a held write guard can be downgraded to a
//! read-capable view without releasing the exclusive hold.
//!
//! Ordering among waiting threads is delegated to the underlying
//! `parking_lot` lock: best-effort eventual fairness, not a starvation
//! guarantee.  That lock does not poison on a panicking holder, so neither
//! `read` nor `write` ever observes a poisoned state.

pub mod laws;
mod raw;
mod shared_lock;

pub use shared_lock::ReadGuard;
pub use shared_lock::SharedRwLock;
pub use shared_lock::WriteGuard;
