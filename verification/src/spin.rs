use vstd::prelude::*;
use crate::align::new_alignment;
use crate::align::NaturalAlignment;
use crate::arch::AtomicFlag;
use crate::ordering::AtomicOrdering;

pub mod atomic_usize;

verus! {

/// A spin lock made of an atomic flag that is set while the lock is held.
pub struct SpinLockImpl(AtomicFlag);

impl SpinLockImpl {
    /// A lock that is free.
    pub fn new() -> Self {
        SpinLockImpl(AtomicFlag::new(false))
    }

    /// Takes the lock where it is free: sets the flag, and returns whether
    /// the flag was clear before.
    pub fn try_lock(&self) -> bool {
        !self.0.test_and_set(AtomicOrdering::Acquire)
    }

    /// Frees the lock: clears the flag.
    pub fn unlock(&self)
    {
        self.0.clear(AtomicOrdering::Release)
    }
}

/// A spin lock, with the marker of a machine word's alignment; holding it is
/// holding a `Guard`.
pub struct SpinLock(SpinLockImpl, <usize as NaturalAlignment>::Align);

impl SpinLock {
    /// The lock that this spin lock takes and frees.
    pub closed spec fn inner(&self) -> SpinLockImpl {
        self.0
    }

    /// A lock that is free.
    pub fn new() -> Self {
        SpinLock(SpinLockImpl::new(), new_alignment())
    }

    /// Takes the lock where it is free: `Ok` of a guard whose `unlock` frees
    /// it (dropping the guard does not), else `Err`.
    pub fn try_lock(&self) -> (r: Result<Guard<'_>, ()>)
        ensures
            r matches Ok(g) ==> g.held_lock() == self.inner(),
    {
        if self.0.try_lock() {
            Ok(Guard { lock: &self.0 })
        } else {
            Err(())
        }
    }

    /// Frees the lock, whoever holds it.
    pub fn force_unlock(&mut self) {
        self.0.unlock()
    }
}

/// Proof that the lock is held; `unlock` frees the lock.
///
/// The guard has no destructor: a guard that is dropped without `unlock`
/// leaves the lock held until `SpinLock::force_unlock`. Every guard must be
/// freed with `Guard::unlock`.
pub struct Guard<'a> {
    lock: &'a SpinLockImpl,
}

impl<'a> Guard<'a> {
    /// The lock that the guard holds and `unlock` frees.
    pub closed spec fn held_lock(&self) -> SpinLockImpl {
        *self.lock
    }

    /// Frees the lock.
    pub fn unlock(self) {
        self.lock.unlock()
    }
}

} // verus!
