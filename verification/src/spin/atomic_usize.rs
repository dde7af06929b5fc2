use vstd::prelude::*;
use crate::arch::AtomicArchImpl;
use crate::ordering::AtomicOrdering;

verus! {

/// The value of the lock word while the lock is held; it is 0 while free.
pub const LOCK_ENGAGED: usize = 0x01;

/// A spin lock made of an atomic word that is `LOCK_ENGAGED` while the lock
/// is held and 0 while it is free.
pub struct SpinLockImpl(AtomicArchImpl<usize>);

impl SpinLockImpl {
    /// A lock that is free.
    pub fn new() -> Self {
        SpinLockImpl(AtomicArchImpl::new(0))
    }

    /// Takes the lock where it is free: writes `LOCK_ENGAGED` where the word
    /// is 0, and returns whether it was.
    pub fn try_lock(&self) -> bool {
        self.0.compare_exchange(0, LOCK_ENGAGED, AtomicOrdering::Acquire, AtomicOrdering::Relaxed).is_ok()
    }

    /// One attempt of `lock`: as `try_lock`, but it may fail where the lock
    /// is free.
    pub fn try_lock_weak(&self) -> bool {
        self.0.compare_exchange_weak(0, LOCK_ENGAGED, AtomicOrdering::Acquire, AtomicOrdering::Relaxed).is_ok()
    }

    /// Frees the lock: writes 0.
    pub fn unlock(&self) {
        self.0.store(0, AtomicOrdering::Release)
    }
}

} // verus!
