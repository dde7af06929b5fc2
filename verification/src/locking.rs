use vstd::prelude::*;
use vstd::rwlock::RwLock;
use crate::ordering::AtomicOrdering;

verus! {

/// A plain value whose byte representation determines it: two values have
/// the same bytes exactly when they are equal.
pub trait BytesEq: Copy + Sized {
    /// Whether `a` and `b` have the same byte representation.
    fn bytes_eq(a: Self, b: Self) -> (r: bool)
        ensures
            r <==> a == b,
    ;
}

impl BytesEq for bool {
    fn bytes_eq(a: bool, b: bool) -> bool {
        a == b
    }
}

impl BytesEq for u8 {
    fn bytes_eq(a: u8, b: u8) -> bool {
        a == b
    }
}

impl BytesEq for u16 {
    fn bytes_eq(a: u16, b: u16) -> bool {
        a == b
    }
}

impl BytesEq for u32 {
    fn bytes_eq(a: u32, b: u32) -> bool {
        a == b
    }
}

impl BytesEq for u64 {
    fn bytes_eq(a: u64, b: u64) -> bool {
        a == b
    }
}

impl BytesEq for u128 {
    fn bytes_eq(a: u128, b: u128) -> bool {
        a == b
    }
}

impl BytesEq for usize {
    fn bytes_eq(a: usize, b: usize) -> bool {
        a == b
    }
}

impl BytesEq for i8 {
    fn bytes_eq(a: i8, b: i8) -> bool {
        a == b
    }
}

impl BytesEq for i16 {
    fn bytes_eq(a: i16, b: i16) -> bool {
        a == b
    }
}

impl BytesEq for i32 {
    fn bytes_eq(a: i32, b: i32) -> bool {
        a == b
    }
}

impl BytesEq for i64 {
    fn bytes_eq(a: i64, b: i64) -> bool {
        a == b
    }
}

impl BytesEq for i128 {
    fn bytes_eq(a: i128, b: i128) -> bool {
        a == b
    }
}

impl BytesEq for isize {
    fn bytes_eq(a: isize, b: isize) -> bool {
        a == b
    }
}

/// One compare-exchange on the value `current` read under the lock: the
/// value to write back and the result. Where the bytes of `expected` are
/// those of `current`, the bytes of `expected` are written back (so the
/// value held stays what it was) and the result is `Ok(current)`; else
/// `current` is written back and the result is `Err(current)`.
pub fn exchange_step<T: BytesEq>(current: T, expected: T, new: T) -> (r: (T, Result<T, T>))
    ensures
        current == expected ==> r == (expected, Ok::<T, T>(current)),
        current != expected ==> r == (current, Err::<T, T>(current)),
{
    if T::bytes_eq(expected, current) {
        (expected, Ok(current))
    } else {
        (current, Err(current))
    }
}

/// An atomic value of a type that the target does not handle atomically:
/// every operation holds a lock over the value while it runs. The orderings
/// are accepted and not needed, since the lock orders every operation.
#[verifier::reject_recursive_types(T)]
pub struct AtomicLockingImpl<T: BytesEq> {
    lock: RwLock<T, spec_fn(T) -> bool>,
}

impl<T: BytesEq> AtomicLockingImpl<T> {
    /// The lock admits every value.
    #[verifier::type_invariant]
    spec fn admits_every_value(self) -> bool {
        forall|v: T| #[trigger] self.lock.inv(v)
    }

    /// An atomic that holds `x`.
    pub fn new(x: T) -> Self {
        let lock = RwLock::new(x, Ghost(|v: T| true));
        AtomicLockingImpl { lock }
    }

    /// Stores `val` into the atomic.
    pub fn store(&self, val: T, order: AtomicOrdering) {
        proof {
            use_type_invariant(self);
        }
        let (_old, handle) = self.lock.acquire_write();
        handle.release_write(val);
    }

    /// Loads the value held by the atomic.
    pub fn load(&self, order: AtomicOrdering) -> T {
        let handle = self.lock.acquire_read();
        let v = *handle.borrow();
        handle.release_read();
        v
    }

    /// Takes the lock, reads the value held and makes one `exchange_step`
    /// on it: writes back what the step gives and returns its result. So it
    /// returns `Ok` of the value held, which is `expected`, where the bytes
    /// are the same, else `Err` of the value held, which is not `expected`;
    /// either way the value held stays what it was, since on success the
    /// bytes of `expected` are written back, not those of `new`.
    pub fn compare_exchange(&self, expected: T, new: T, success_order: AtomicOrdering, fail_order: AtomicOrdering) -> (r: Result<T, T>)
        ensures
            r matches Ok(v) ==> v == expected,
            r matches Err(v) ==> v != expected,
    {
        proof {
            use_type_invariant(self);
        }
        let (current, handle) = self.lock.acquire_write();
        let (written, result) = exchange_step(current, expected, new);
        handle.release_write(written);
        result
    }

    /// As `compare_exchange`, which never fails spuriously.
    pub fn compare_exchange_weak(&self, expected: T, new: T, success_order: AtomicOrdering, fail_order: AtomicOrdering) -> (r: Result<T, T>)
        ensures
            r matches Ok(v) ==> v == expected,
            r matches Err(v) ==> v != expected,
    {
        self.compare_exchange(expected, new, success_order, fail_order)
    }

    /// The value held by the atomic.
    pub fn into_inner(self) -> T {
        self.lock.into_inner()
    }
}

} // verus!
