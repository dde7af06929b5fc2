use vstd::prelude::*;
use crate::ordering::AtomicOrdering;

mod cells;

verus! {

/// A value that the target loads, stores and compare-exchanges atomically,
/// held in the atomic cell `Self::Cell`.
///
/// A cell can be changed through a shared reference by any thread, so no
/// operation on a cell is specified by the value it holds: what a load or a
/// compare-exchange reads is whatever another thread stored last.
///
/// An ordering that an operation cannot have (a load with a release part,
/// a store with an acquire part, a compare-exchange whose failure ordering
/// is not allowed for its success ordering) is strengthened to `SeqCst`.
pub trait ArchAtomic: Copy + Sized {
    /// The atomic cell that holds a value of this type.
    type Cell;

    /// A cell that holds `v`.
    fn cell_new(v: Self) -> Self::Cell;

    /// The value held by an exclusively owned cell.
    fn cell_into_inner(c: Self::Cell) -> Self;

    /// The value held by an exclusively borrowed cell.
    fn cell_get_mut(c: &mut Self::Cell) -> &mut Self;

    /// Loads the value held by `c`.
    fn load(c: &Self::Cell, ord: AtomicOrdering) -> Self;

    /// Stores `val` into `c`.
    fn store(c: &Self::Cell, val: Self, ord: AtomicOrdering);

    /// Stores `new` into `c` where `c` holds `expected`; returns the value
    /// that `c` held and whether `new` was stored, which is so exactly when
    /// that value is `expected`.
    fn compare_exchange(c: &Self::Cell, expected: Self, new: Self, success: AtomicOrdering, failure: AtomicOrdering) -> (r: (Self, bool))
        ensures
            r.1 <==> r.0 == expected,
    ;

    /// As `compare_exchange`, but it may fail even where `c` holds
    /// `expected`: where `new` was stored, the value returned is `expected`.
    fn compare_exchange_weak(c: &Self::Cell, expected: Self, new: Self, success: AtomicOrdering, failure: AtomicOrdering) -> (r: (Self, bool))
        ensures
            r.1 ==> r.0 == expected,
    ;

    /// Stores `val` into `c` and returns the value that `c` held.
    fn swap(c: &Self::Cell, val: Self, ord: AtomicOrdering) -> Self;
}

/// An atomic integer that the target also adds to and subtracts from
/// atomically, wrapping around on overflow.
pub trait ArchAtomicOps: ArchAtomic {
    /// Adds `val` to the value held by `c`; returns the value held before.
    fn fetch_add(c: &Self::Cell, val: Self, ord: AtomicOrdering) -> Self;

    /// Subtracts `val` from the value held by `c`; returns the value held before.
    fn fetch_sub(c: &Self::Cell, val: Self, ord: AtomicOrdering) -> Self;
}

/// A flag that the target sets and clears atomically.
pub trait ArchAtomicFlag: Copy + Sized {
    /// The atomic value whose cell holds the flag.
    type Underlying: ArchAtomic;

    /// Sets the flag; returns whether it was set before.
    fn test_and_set(c: &<Self::Underlying as ArchAtomic>::Cell, ord: AtomicOrdering) -> Self;

    /// Clears the flag.
    fn clear(c: &<Self::Underlying as ArchAtomic>::Cell, ord: AtomicOrdering);
}


/// Storage for an atomic value of type `T`.
pub struct ArchAtomicStorage<T: ArchAtomic> {
    cell: T::Cell,
}

impl<T: ArchAtomic> ArchAtomicStorage<T> {
    /// The atomic cell of the storage.
    pub closed spec fn cell(&self) -> T::Cell {
        self.cell
    }

    /// Storage that holds `x`.
    pub fn new(x: T) -> Self {
        ArchAtomicStorage { cell: T::cell_new(x) }
    }

    /// The value held by the storage.
    pub fn into_inner(self) -> T {
        T::cell_into_inner(self.cell)
    }

    /// The atomic cell of the storage, to be shared between threads.
    pub fn get(&self) -> &T::Cell
    {
        &self.cell
    }

    /// The value held by the storage, borrowed exclusively.
    pub fn get_mut(&mut self) -> &mut T {
        T::cell_get_mut(&mut self.cell)
    }
}

/// An atomic value of a type that the target handles atomically.
pub struct AtomicArchImpl<T: ArchAtomic>(ArchAtomicStorage<T>);

impl<T: ArchAtomic> AtomicArchImpl<T> {
    /// An atomic that holds `x`.
    pub fn new(x: T) -> Self {
        AtomicArchImpl(ArchAtomicStorage::new(x))
    }

    /// The value held by the atomic.
    pub fn into_inner(self) -> T {
        self.0.into_inner()
    }

    /// The value held by the atomic, borrowed exclusively.
    pub fn get_mut(&mut self) -> &mut T {
        self.0.get_mut()
    }

    /// Loads the value held by the atomic.
    pub fn load(&self, order: AtomicOrdering) -> T {
        T::load(self.0.get(), order)
    }

    /// Stores `val` into the atomic.
    pub fn store(&self, val: T, order: AtomicOrdering) {
        T::store(self.0.get(), val, order)
    }

    /// Stores `new` where the atomic holds `expected`: `Ok` of the value
    /// held, which is `expected`, where `new` was stored, else `Err` of the
    /// value held, which is not `expected`.
    pub fn compare_exchange(&self, expected: T, new: T, success_order: AtomicOrdering, fail_order: AtomicOrdering) -> (r: Result<T, T>)
        ensures
            r matches Ok(v) ==> v == expected,
            r matches Err(v) ==> v != expected,
    {
        let (val, succ) = T::compare_exchange(self.0.get(), expected, new, success_order, fail_order);
        if succ {
            Ok(val)
        } else {
            Err(val)
        }
    }

    /// As `compare_exchange`, but it may fail where the atomic holds
    /// `expected`: `Ok` of `expected` where `new` was stored, else `Err` of
    /// the value held.
    pub fn compare_exchange_weak(&self, expected: T, new: T, success_order: AtomicOrdering, fail_order: AtomicOrdering) -> (r: Result<T, T>)
        ensures
            r matches Ok(v) ==> v == expected,
    {
        let (val, succ) = T::compare_exchange_weak(self.0.get(), expected, new, success_order, fail_order);
        if succ {
            Ok(val)
        } else {
            Err(val)
        }
    }
}

/// An atomic flag: a boolean that is set and cleared atomically.
pub struct AtomicFlag(ArchAtomicStorage<<bool as ArchAtomicFlag>::Underlying>);

impl AtomicFlag {
    /// A flag set where `x` is `true`.
    pub fn new(x: bool) -> Self {
        AtomicFlag(ArchAtomicStorage::new(x))
    }

    /// Whether the flag is set.
    pub fn into_inner(self) -> bool {
        self.0.into_inner()
    }

    /// Sets the flag; returns whether it was set before.
    pub fn test_and_set(&self, ord: AtomicOrdering) -> bool {
        <bool as ArchAtomicFlag>::test_and_set(self.0.get(), ord)
    }

    /// Clears the flag.
    pub fn clear(&self, ord: AtomicOrdering)
    {
        <bool as ArchAtomicFlag>::clear(self.0.get(), ord)
    }
}

} // verus!
