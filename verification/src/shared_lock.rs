//! Different objects protected by the same lock.
//!
//! Each [`SharedRwLock`] owns exactly one payload and holds a handle to an
//! exclusion primitive that may be shared with sibling wrappers.  Guards are
//! the only access path to a payload: a read guard borrows its wrapper, a
//! write guard owns its wrapper for the span of the exclusive hold and gives
//! it back on [`WriteGuard::release`].

use std::marker::PhantomData;
use vstd::prelude::*;

use crate::raw;
use crate::raw::LockHandle;

verus! {

/// One payload value protected by a lock that may be shared with the
/// sibling wrappers created through [`SharedRwLock::new_with_same_lock`].
pub struct SharedRwLock<T> {
    rwlock: LockHandle,
    data: T,
}

/// Proof that the lock is held for reading.  Borrows the wrapper whose
/// payload it exposes, so the payload cannot change and the wrapper cannot
/// go away while the guard is live.
pub struct ReadGuard<'a, T> {
    wrapper: &'a SharedRwLock<T>,
    inner: ReadGuardInner<'a>,
}

/// Proof that the lock is held for writing.  Owns the wrapper whose payload
/// it exposes for the span of the exclusive hold and gives it back on
/// [`WriteGuard::release`], so no other access path to the payload exists
/// while the guard is live.  Dropping the guard instead of releasing it
/// also ends the hold, but discards the wrapper together with its payload.
pub struct WriteGuard<'a, T> {
    wrapper: SharedRwLock<T>,
    inner: WriteGuardInner<'a>,
}

/// How a write guard came to hold its proof of exclusive access.
enum WriteGuardInner<'a> {
    /// This guard performed its own exclusive acquisition and releases it
    /// when it is dropped or released.
    Owned(raw::ExclusiveToken),
    /// This guard mutably reuses the exclusive acquisition of another live
    /// write guard; the borrow it carries keeps that guard both alive and
    /// inaccessible, and nothing is released when this guard goes away.
    Borrowed(PhantomData<&'a mut ()>),
}

/// How a read guard came to hold its proof of shared access.
enum ReadGuardInner<'a> {
    /// This guard performed its own acquisition and releases it on drop.
    Owned(raw::SharedToken<'a>),
    /// This guard reuses the acquisition of another live read guard; the
    /// borrow it carries keeps that guard alive, and nothing is released
    /// when this guard is dropped.
    Borrowed(PhantomData<&'a ()>),
    /// This guard reuses the exclusive acquisition of a live write guard,
    /// reinterpreted as granting read capability.
    Downgraded(PhantomData<&'a ()>),
}

impl<T> SharedRwLock<T> {
    /// The payload this wrapper protects.
    pub closed spec fn value(self) -> T {
        self.data
    }

    /// The identity of the underlying lock: wrappers in one lock domain
    /// agree on it, wrappers of unrelated domains do not.
    pub closed spec fn lock_id(self) -> int {
        raw::handle_addr(self.rwlock)
    }

    /// Create with a new shared lock, forming a fresh lock domain.
    pub fn new(data: T) -> (r: Self)
        ensures
            r.value() == data,
    {
        SharedRwLock { rwlock: LockHandle::new(), data }
    }

    /// Create a new `SharedRwLock` with the same lock as `self`.
    ///
    /// The new wrapper holds `data` and joins this wrapper's lock domain: a
    /// guard obtained from either wrapper can be composed into a guard for
    /// the other.
    pub fn new_with_same_lock<U>(&self, data: U) -> (r: SharedRwLock<U>)
        ensures
            r.value() == data,
            r.lock_id() == self.lock_id(),
    {
        SharedRwLock { rwlock: self.rwlock.clone(), data }
    }

    /// Acquire the shared lock for reading, blocking the calling thread
    /// while a writer holds it, and access this data for reading.
    pub fn read(&self) -> (g: ReadGuard<'_, T>)
        ensures
            g.value() == self.value(),
            g.lock_id() == self.lock_id(),
            g.is_owned(),
    {
        ReadGuard { wrapper: self, inner: ReadGuardInner::Owned(self.rwlock.acquire_read()) }
    }

    /// Acquire the shared lock for writing, blocking the calling thread
    /// while any reader or writer holds it, and access this data for
    /// writing.  The wrapper moves into the guard for the span of the
    /// exclusive hold; [`WriteGuard::release`] gives it back.
    pub fn write<'a>(self) -> (g: WriteGuard<'a, T>)
        ensures
            g.value() == self.value(),
            g.lock_id() == self.lock_id(),
            g.is_owned(),
    {
        let token = self.rwlock.acquire_write();
        WriteGuard { wrapper: self, inner: WriteGuardInner::Owned(token) }
    }

    /// Access this data for reading with the shared lock already acquired.
    ///
    /// Callers must hold a guard of the same lock domain; the composed
    /// guard reuses that guard's acquisition and performs none of its own.
    /// It borrows both this wrapper and the existing guard: it can outlive
    /// neither.
    pub fn read_with<'a, 'b, U>(&'a self, existing: &'a ReadGuard<'b, U>) -> (g: ReadGuard<'a, T>)
        requires
            self.lock_id() == existing.lock_id(),
        ensures
            g.value() == self.value(),
            g.lock_id() == self.lock_id(),
            existing.is_downgraded() ==> g.is_downgraded(),
            !existing.is_downgraded() ==> g.is_borrowed(),
    {
        ReadGuard {
            wrapper: self,
            inner: match existing.inner {
                ReadGuardInner::Owned(_) => ReadGuardInner::Borrowed(PhantomData),
                ReadGuardInner::Borrowed(_) => ReadGuardInner::Borrowed(PhantomData),
                ReadGuardInner::Downgraded(_) => ReadGuardInner::Downgraded(PhantomData),
            },
        }
    }

    /// The checked form of [`SharedRwLock::read_with`]: compose only after
    /// testing that the two wrappers share one lock, and return `None` —
    /// on every invocation — when they do not.
    pub fn try_read_with<'a, 'b, U>(&'a self, existing: &'a ReadGuard<'b, U>) -> (r: Option<
        ReadGuard<'a, T>,
    >)
        ensures
            (r is Some) <==> self.lock_id() == existing.lock_id(),
            r matches Some(g) ==> {
                &&& g.value() == self.value()
                &&& g.lock_id() == self.lock_id()
                &&& (existing.is_downgraded() ==> g.is_downgraded())
                &&& (!existing.is_downgraded() ==> g.is_borrowed())
            },
    {
        if self.rwlock.same_rwlock(&existing.wrapper.rwlock) {
            Some(self.read_with(existing))
        } else {
            None
        }
    }

    /// Access this data for writing with the shared lock already acquired.
    ///
    /// Callers must hold a write guard of the same lock domain; the
    /// composed guard reuses that guard's exclusive acquisition and
    /// performs none of its own.  While the composed guard exists the
    /// existing guard stays mutably borrowed, so it cannot be dereferenced
    /// or further composed from: one active borrower at a time.
    pub fn write_with<'a, 'b, U>(self, existing: &'a mut WriteGuard<'b, U>) -> (g: WriteGuard<
        'a,
        T,
    >)
        requires
            self.lock_id() == old(existing).lock_id(),
        ensures
            g.value() == self.value(),
            g.lock_id() == self.lock_id(),
            g.is_borrowed(),
            *final(existing) == *old(existing),
    {
        WriteGuard { wrapper: self, inner: WriteGuardInner::Borrowed(PhantomData) }
    }

    /// The checked form of [`SharedRwLock::write_with`]: compose only after
    /// testing that the two wrappers share one lock.  On a mismatch — on
    /// every invocation — no guard is made and the wrapper comes back
    /// unchanged in the `Err` case.
    pub fn try_write_with<'a, 'b, U>(self, existing: &'a mut WriteGuard<'b, U>) -> (r: Result<
        WriteGuard<'a, T>,
        SharedRwLock<T>,
    >)
        ensures
            (r is Ok) <==> self.lock_id() == old(existing).lock_id(),
            r matches Ok(g) ==> {
                &&& g.value() == self.value()
                &&& g.lock_id() == self.lock_id()
                &&& g.is_borrowed()
            },
            r matches Err(w) ==> w == self,
            *final(existing) == *old(existing),
    {
        if self.rwlock.same_rwlock(&existing.wrapper.rwlock) {
            Ok(self.write_with(existing))
        } else {
            Err(self)
        }
    }
}

impl<'a, T> ReadGuard<'a, T> {
    /// The payload this guard gives access to.
    pub closed spec fn value(self) -> T {
        self.wrapper.data
    }

    /// The identity of the lock whose hold this guard relies on.
    pub closed spec fn lock_id(self) -> int {
        raw::handle_addr(self.wrapper.rwlock)
    }

    /// True of a guard that performed its own acquisition.
    pub closed spec fn is_owned(self) -> bool {
        self.inner is Owned
    }

    /// True of a guard that reuses another read guard's acquisition.
    pub closed spec fn is_borrowed(self) -> bool {
        self.inner is Borrowed
    }

    /// True of a guard that reuses a write guard's exclusive acquisition.
    pub closed spec fn is_downgraded(self) -> bool {
        self.inner is Downgraded
    }

    /// Read the payload.  The reference cannot outlive the guard.
    pub fn get(&self) -> (r: &T)
        ensures
            *r == self.value(),
    {
        &self.wrapper.data
    }
}

impl<'a, T> WriteGuard<'a, T> {
    /// The payload this guard gives access to.
    pub closed spec fn value(self) -> T {
        self.wrapper.data
    }

    /// The identity of the lock whose exclusive hold this guard relies on.
    pub closed spec fn lock_id(self) -> int {
        raw::handle_addr(self.wrapper.rwlock)
    }

    /// True of a guard that performed its own exclusive acquisition.
    pub closed spec fn is_owned(self) -> bool {
        self.inner is Owned
    }

    /// True of a guard that mutably reuses another write guard's
    /// acquisition.
    pub closed spec fn is_borrowed(self) -> bool {
        self.inner is Borrowed
    }

    /// Read the payload.  The reference cannot outlive the guard.
    pub fn get(&self) -> (r: &T)
        ensures
            *r == self.value(),
    {
        &self.wrapper.data
    }

    /// Mutate the payload through the guard.  The reference cannot outlive
    /// the guard, and what it is left pointing at is what the guard — and,
    /// after release, the wrapper — holds from then on.
    pub fn get_mut(&mut self) -> (r: &mut T)
        ensures
            *r == old(self).value(),
            final(self).value() == *final(r),
            final(self).lock_id() == old(self).lock_id(),
            final(self).is_owned() == old(self).is_owned(),
            final(self).is_borrowed() == old(self).is_borrowed(),
    {
        &mut self.wrapper.data
    }

    /// Replace the payload with `data`.
    pub fn set(&mut self, data: T)
        ensures
            final(self).value() == data,
            final(self).lock_id() == old(self).lock_id(),
            final(self).is_owned() == old(self).is_owned(),
            final(self).is_borrowed() == old(self).is_borrowed(),
    {
        self.wrapper.data = data;
    }

    /// Return a read guard that references this write guard.
    ///
    /// The read guard reuses this guard's exclusive acquisition: the lock
    /// stays exclusively held, nothing is acquired anew, and other threads
    /// keep blocking exactly as if the write guard were still used
    /// directly.  What changes is purely the capability exposed: a
    /// read-only view for the same thread.  The read guard borrows this
    /// guard and cannot outlive it.
    pub fn downgrade(&self) -> (g: ReadGuard<'_, T>)
        ensures
            g.value() == self.value(),
            g.lock_id() == self.lock_id(),
            g.is_downgraded(),
    {
        ReadGuard { wrapper: &self.wrapper, inner: ReadGuardInner::Downgraded(PhantomData) }
    }

    /// End the write access: release the exclusive hold if this guard
    /// performed its own acquisition, and give the wrapper back with the
    /// payload the guard last held.
    pub fn release(self) -> (w: SharedRwLock<T>)
        ensures
            w.value() == self.value(),
            w.lock_id() == self.lock_id(),
    {
        let WriteGuard { wrapper, inner: _ } = self;
        wrapper
    }
}

} // verus!
