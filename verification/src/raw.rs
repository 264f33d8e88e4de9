//! Trusted boundary around the underlying exclusion primitive.
//!
//! The lock that every wrapper of one domain shares is a
//! `parking_lot::RwLock<()>` held through an `Arc`.  The verifier refuses a
//! direct declaration of the `lock_api` guard types (their generics carry an
//! outside trait bound), so this module holds them in private fields of
//! opaque structs and wraps the handful of calls the library makes on them.
//! Lock identity — "do these two handles name the same underlying lock
//! allocation?" — is modelled by the uninterpreted function `handle_addr`.

use std::sync::Arc;
use vstd::prelude::*;

verus! {

/// A shared handle to one underlying reader/writer lock.  Cloning the
/// handle yields another handle to the same lock allocation.
#[verifier::external_body]
pub struct LockHandle {
    inner: Arc<parking_lot::RwLock<()>>,
}

/// An owned shared-acquisition token: dropping it releases one shared hold
/// of the lock it was acquired from.  It borrows the handle it came from.
#[verifier::external_body]
pub struct SharedToken<'a> {
    inner: parking_lot::RwLockReadGuard<'a, ()>,
}

/// An owned exclusive-acquisition token: dropping it releases the exclusive
/// hold of the lock it was acquired from.  It keeps the lock allocation
/// alive by itself, so it does not borrow the handle.
#[verifier::external_body]
pub struct ExclusiveToken {
    inner: parking_lot::ArcRwLockWriteGuard<parking_lot::RawRwLock, ()>,
}

/// The address of the lock allocation that a handle points to.  Two handles
/// name the same underlying lock exactly when their addresses are equal.
pub uninterp spec fn handle_addr(handle: LockHandle) -> int;

impl LockHandle {
    /// Relies on `parking_lot::RwLock::new` and `Arc::new`: returns a handle
    /// to a fresh lock in the unlocked state.  Nothing is assumed of the
    /// result.
    #[verifier::external_body]
    pub(crate) fn new() -> LockHandle {
        LockHandle { inner: Arc::new(parking_lot::RwLock::new(())) }
    }

    /// Relies on `Arc::clone`: the clone points to the very same lock
    /// allocation, so the two handles have the same address.
    #[verifier::external_body]
    pub(crate) fn clone(&self) -> (r: LockHandle)
        ensures
            handle_addr(r) == handle_addr(*self),
    {
        LockHandle { inner: Arc::clone(&self.inner) }
    }

    /// Relies on `Arc::ptr_eq`: true exactly when the two handles point to
    /// the same allocation, that is, when their addresses agree.
    #[verifier::external_body]
    pub(crate) fn same_rwlock(&self, other: &LockHandle) -> (r: bool)
        ensures
            r == (handle_addr(*self) == handle_addr(*other)),
    {
        Arc::ptr_eq(&self.inner, &other.inner)
    }

    /// Relies on `parking_lot::RwLock::read`: blocks the calling thread
    /// until no writer holds the lock, then returns the token whose drop
    /// releases the shared hold.  Nothing is assumed of the token value.
    #[verifier::external_body]
    pub(crate) fn acquire_read(&self) -> SharedToken<'_> {
        SharedToken { inner: self.inner.read() }
    }

    /// Relies on `lock_api::RwLock::write_arc`: blocks the calling thread
    /// until no reader or writer holds the lock, then returns the token
    /// whose drop releases the exclusive hold.  Nothing is assumed of the
    /// token value.
    #[verifier::external_body]
    pub(crate) fn acquire_write(&self) -> ExclusiveToken {
        ExclusiveToken { inner: self.inner.write_arc() }
    }
}

} // verus!
