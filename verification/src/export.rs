use vstd::prelude::*;
use core::marker::PhantomData;
use crate::arch::ArchAtomic;
use crate::arch::AtomicArchImpl;
use crate::locking::AtomicLockingImpl;
use crate::ordering::AtomicOrdering;
use crate::ordering::assert_cmpxchg_ordering;
use crate::ordering::assert_load_ordering;
use crate::ordering::assert_store_ordering;
use crate::ordering::is_load_ordering;
use crate::ordering::is_store_ordering;
use crate::ordering::is_cmpxchg_ordering;

verus! {

/// The atomic implementation chosen for a type: the target's atomic cells
/// where the target handles the type atomically, the lock-based fallback
/// otherwise.
pub trait AtomicArchSwitch: Copy + Sized {
    /// The implementation.
    type T;

    /// An atomic that holds `v`.
    fn impl_new(v: Self) -> Self::T;

    /// The value held by an owned atomic.
    fn impl_into_inner(a: Self::T) -> Self;

    /// Loads the value held.
    fn impl_load(a: &Self::T, order: AtomicOrdering) -> Self;

    /// Stores `val`.
    fn impl_store(a: &Self::T, val: Self, order: AtomicOrdering);

    /// Compare-exchange: `Ok` of the value held, which is `expected`, where
    /// the exchange succeeds, else `Err` of the value held, which is not
    /// `expected`. On success the target's cells store `new`. For `u128` and `i128`, which take the
    /// lock fallback, a successful exchange writes the bytes of `expected`
    /// back, so the value held stays what it was.
    fn impl_compare_exchange(a: &Self::T, expected: Self, new: Self, success_order: AtomicOrdering, fail_order: AtomicOrdering) -> (r: Result<Self, Self>)
        ensures
            r matches Ok(v) ==> v == expected,
            r matches Err(v) ==> v != expected,
    ;

    /// Compare-exchange that may fail spuriously: `Ok` of `expected` where
    /// the exchange succeeds, else `Err` of the value held. On success the
    /// target's cells store `new`. For `u128` and `i128`, which take the
    /// lock fallback, a successful exchange writes the bytes of `expected`
    /// back, so the value held stays what it was.
    fn impl_compare_exchange_weak(a: &Self::T, expected: Self, new: Self, success_order: AtomicOrdering, fail_order: AtomicOrdering) -> (r: Result<Self, Self>)
        ensures
            r matches Ok(v) ==> v == expected,
    ;
}

impl<V: ArchAtomic> AtomicArchSwitch for V {
    type T = AtomicArchImpl<V>;

    fn impl_new(v: V) -> AtomicArchImpl<V> {
        AtomicArchImpl::new(v)
    }

    fn impl_into_inner(a: AtomicArchImpl<V>) -> V {
        a.into_inner()
    }

    fn impl_load(a: &AtomicArchImpl<V>, order: AtomicOrdering) -> V {
        a.load(order)
    }

    fn impl_store(a: &AtomicArchImpl<V>, val: V, order: AtomicOrdering) {
        a.store(val, order)
    }

    fn impl_compare_exchange(a: &AtomicArchImpl<V>, expected: V, new: V, success_order: AtomicOrdering, fail_order: AtomicOrdering) -> (r: Result<V, V>) {
        a.compare_exchange(expected, new, success_order, fail_order)
    }

    fn impl_compare_exchange_weak(a: &AtomicArchImpl<V>, expected: V, new: V, success_order: AtomicOrdering, fail_order: AtomicOrdering) -> (r: Result<V, V>) {
        a.compare_exchange_weak(expected, new, success_order, fail_order)
    }
}

impl AtomicArchSwitch for u128 {
    type T = AtomicLockingImpl<u128>;

    fn impl_new(v: u128) -> AtomicLockingImpl<u128> {
        AtomicLockingImpl::new(v)
    }

    fn impl_into_inner(a: AtomicLockingImpl<u128>) -> u128 {
        a.into_inner()
    }

    fn impl_load(a: &AtomicLockingImpl<u128>, order: AtomicOrdering) -> u128 {
        a.load(order)
    }

    fn impl_store(a: &AtomicLockingImpl<u128>, val: u128, order: AtomicOrdering) {
        a.store(val, order)
    }

    fn impl_compare_exchange(a: &AtomicLockingImpl<u128>, expected: u128, new: u128, success_order: AtomicOrdering, fail_order: AtomicOrdering) -> (r: Result<u128, u128>) {
        a.compare_exchange(expected, new, success_order, fail_order)
    }

    fn impl_compare_exchange_weak(a: &AtomicLockingImpl<u128>, expected: u128, new: u128, success_order: AtomicOrdering, fail_order: AtomicOrdering) -> (r: Result<u128, u128>) {
        a.compare_exchange_weak(expected, new, success_order, fail_order)
    }
}

impl AtomicArchSwitch for i128 {
    type T = AtomicLockingImpl<i128>;

    fn impl_new(v: i128) -> AtomicLockingImpl<i128> {
        AtomicLockingImpl::new(v)
    }

    fn impl_into_inner(a: AtomicLockingImpl<i128>) -> i128 {
        a.into_inner()
    }

    fn impl_load(a: &AtomicLockingImpl<i128>, order: AtomicOrdering) -> i128 {
        a.load(order)
    }

    fn impl_store(a: &AtomicLockingImpl<i128>, val: i128, order: AtomicOrdering) {
        a.store(val, order)
    }

    fn impl_compare_exchange(a: &AtomicLockingImpl<i128>, expected: i128, new: i128, success_order: AtomicOrdering, fail_order: AtomicOrdering) -> (r: Result<i128, i128>) {
        a.compare_exchange(expected, new, success_order, fail_order)
    }

    fn impl_compare_exchange_weak(a: &AtomicLockingImpl<i128>, expected: i128, new: i128, success_order: AtomicOrdering, fail_order: AtomicOrdering) -> (r: Result<i128, i128>) {
        a.compare_exchange_weak(expected, new, success_order, fail_order)
    }
}

/// Whether the target handles `T` atomically: `HAS_ARCH` is `true` through
/// the inherent constant where `T` is kept in the target's atomic cells,
/// and `false` through `Fallback` otherwise.
pub struct HasAtomicArchSel<T>(PhantomData<T>);

impl<T: ArchAtomic> HasAtomicArchSel<T> {
    pub const HAS_ARCH: bool = true;
}

/// The selection for a type that the target does not handle atomically.
pub trait Fallback {
    const HAS_ARCH: bool;
}

impl<T> Fallback for HasAtomicArchSel<T> {
    const HAS_ARCH: bool = false;
}

/// An atomic value of type `T`. Its operations refuse the orderings that
/// they cannot have: a load with a release part, a store with an acquire
/// part, a compare-exchange whose failure ordering has a release part or
/// is stronger than the load part of its success ordering.
pub struct AtomicTy<T: AtomicArchSwitch>(T::T);

impl<T: AtomicArchSwitch> AtomicTy<T> {
    /// An atomic that holds `x`.
    pub fn new(x: T) -> Self {
        AtomicTy(T::impl_new(x))
    }

    /// The value held by the atomic.
    pub fn into_inner(self) -> T {
        T::impl_into_inner(self.0)
    }

    /// Loads the value held by the atomic.
    pub fn load(&self, order: AtomicOrdering) -> T
        requires
            is_load_ordering(order),
    {
        assert_load_ordering(order);
        T::impl_load(&self.0, order)
    }

    /// Stores `val` into the atomic.
    pub fn store(&self, val: T, order: AtomicOrdering)
        requires
            is_store_ordering(order),
    {
        assert_store_ordering(order);
        T::impl_store(&self.0, val, order)
    }

    /// Compare-exchange: `Ok` of the value held, which is `expected`, where
    /// the exchange succeeds, else `Err` of the value held, which is not
    /// `expected`. On success the target's cells store `new`. For `u128` and `i128`, which take the
    /// lock fallback, a successful exchange writes the bytes of `expected`
    /// back, so the value held stays what it was.
    pub fn compare_exchange(&self, expected: T, new: T, success_order: AtomicOrdering, fail_order: AtomicOrdering) -> (r: Result<T, T>)
        requires
            is_cmpxchg_ordering(success_order, fail_order),
        ensures
            r matches Ok(v) ==> v == expected,
            r matches Err(v) ==> v != expected,
    {
        assert_cmpxchg_ordering(success_order, fail_order);
        T::impl_compare_exchange(&self.0, expected, new, success_order, fail_order)
    }

    /// As `compare_exchange`, but it may fail where the atomic holds
    /// `expected`: `Ok` of `expected` where the exchange succeeds, else `Err`
    /// of the value held. For `u128` and `i128`, which take the
    /// lock fallback, a successful exchange writes the bytes of `expected`
    /// back, so the value held stays what it was.
    pub fn compare_exchange_weak(&self, expected: T, new: T, success_order: AtomicOrdering, fail_order: AtomicOrdering) -> (r: Result<T, T>)
        requires
            is_cmpxchg_ordering(success_order, fail_order),
        ensures
            r matches Ok(v) ==> v == expected,
    {
        assert_cmpxchg_ordering(success_order, fail_order);
        T::impl_compare_exchange_weak(&self.0, expected, new, success_order, fail_order)
    }
}

/// A type kept in the target's atomic cells, so that an exclusively
/// borrowed atomic lends out its value.
pub trait AtomicGetMut: AtomicArchSwitch {
    /// The value held by an exclusively borrowed atomic.
    fn impl_get_mut(a: &mut Self::T) -> &mut Self;
}

impl<V: ArchAtomic> AtomicGetMut for V {
    fn impl_get_mut(a: &mut AtomicArchImpl<V>) -> &mut V {
        a.get_mut()
    }
}

impl<T: AtomicGetMut> AtomicTy<T> {
    /// The value held by the atomic, borrowed exclusively.
    pub fn get_mut(&mut self) -> &mut T {
        T::impl_get_mut(&mut self.0)
    }
}

pub type AtomicFlag = crate::arch::AtomicFlag;

pub type AtomicU8Ty = AtomicTy<u8>;

pub type AtomicU16Ty = AtomicTy<u16>;

pub type AtomicU32Ty = AtomicTy<u32>;

pub type AtomicU64Ty = AtomicTy<u64>;

pub type AtomicU128Ty = AtomicTy<u128>;

pub type AtomicUsizeTy = AtomicTy<usize>;

pub type AtomicI8Ty = AtomicTy<i8>;

pub type AtomicI16Ty = AtomicTy<i16>;

pub type AtomicI32Ty = AtomicTy<i32>;

pub type AtomicI64Ty = AtomicTy<i64>;

pub type AtomicI128Ty = AtomicTy<i128>;

pub type AtomicIsizeTy = AtomicTy<isize>;

pub type AtomicBoolTy = AtomicTy<bool>;

} // verus!
