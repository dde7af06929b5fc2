use vstd::prelude::*;
use core::sync::atomic::Ordering;
use core::sync::atomic::AtomicBool;
use core::sync::atomic::AtomicU8;
use core::sync::atomic::AtomicU16;
use core::sync::atomic::AtomicU32;
use core::sync::atomic::AtomicU64;
use core::sync::atomic::AtomicUsize;
use core::sync::atomic::AtomicI8;
use core::sync::atomic::AtomicI16;
use core::sync::atomic::AtomicI32;
use core::sync::atomic::AtomicI64;
use core::sync::atomic::AtomicIsize;
use crate::ordering::AtomicOrdering;
use crate::ordering::load_ordering_or_seqcst;
use crate::ordering::store_ordering_or_seqcst;
use crate::ordering::cmpxchg_ordering_or_seqcst;
use super::ArchAtomic;
use super::ArchAtomicOps;
use super::ArchAtomicFlag;

verus! {

/// The `core` ordering that `ord` names.
pub open spec fn core_ordering_of(ord: AtomicOrdering) -> Ordering {
    match ord {
        AtomicOrdering::Relaxed => Ordering::Relaxed,
        AtomicOrdering::Acquire => Ordering::Acquire,
        AtomicOrdering::Release => Ordering::Release,
        AtomicOrdering::AcqRel => Ordering::AcqRel,
        AtomicOrdering::SeqCst => Ordering::SeqCst,
    }
}

/// The `core` ordering that `ord` names.
pub fn core_ordering(ord: AtomicOrdering) -> (r: Ordering)
    ensures
        r == core_ordering_of(ord),
{
    match ord {
        AtomicOrdering::Relaxed => Ordering::Relaxed,
        AtomicOrdering::Acquire => Ordering::Acquire,
        AtomicOrdering::Release => Ordering::Release,
        AtomicOrdering::AcqRel => Ordering::AcqRel,
        AtomicOrdering::SeqCst => Ordering::SeqCst,
    }
}

/// Calls `AtomicBool::get_mut`, which borrows the value of an exclusively owned
/// atomic. Nothing is claimed of the value: other threads may have stored
/// into the atomic before it came to be owned.
#[verifier::external_body]
fn atomic_bool_get_mut(c: &mut AtomicBool) -> &mut bool {
    c.get_mut()
}

/// Calls `AtomicBool::compare_exchange`. As its documentation says, the result
/// is `Ok` of the previous value, which equals `current`, when `new` was
/// written, and otherwise `Err` of the previous value, which differs from
/// `current`; the call panics on a `Release` or `AcqRel` failure ordering.
/// What the previous value is depends on other threads and is not stated.
#[verifier::external_body]
fn atomic_bool_compare_exchange(c: &AtomicBool, current: bool, new: bool, success: Ordering, failure: Ordering) -> (r: Result<bool, bool>)
    requires
        failure != Ordering::Release,
        failure != Ordering::AcqRel,
    ensures
        r matches Ok(v) ==> v == current,
        r matches Err(v) ==> v != current,
{
    c.compare_exchange(current, new, success, failure)
}

/// Calls `AtomicBool::compare_exchange_weak`. As its documentation says, the
/// result is `Ok` of the previous value, which equals `current`, when `new`
/// was written, and otherwise `Err` of the previous value; unlike
/// `compare_exchange` it may fail spuriously, so nothing is claimed of an
/// `Err`. It panics where `compare_exchange` panics.
#[verifier::external_body]
fn atomic_bool_compare_exchange_weak(c: &AtomicBool, current: bool, new: bool, success: Ordering, failure: Ordering) -> (r: Result<bool, bool>)
    requires
        failure != Ordering::Release,
        failure != Ordering::AcqRel,
    ensures
        r matches Ok(v) ==> v == current,
{
    c.compare_exchange_weak(current, new, success, failure)
}

impl ArchAtomic for bool {
    type Cell = AtomicBool;

    fn cell_new(v: bool) -> AtomicBool {
        AtomicBool::new(v)
    }

    fn cell_into_inner(c: AtomicBool) -> bool {
        c.load(Ordering::Relaxed)
    }

    fn cell_get_mut(c: &mut AtomicBool) -> &mut bool {
        atomic_bool_get_mut(c)
    }

    fn load(c: &AtomicBool, ord: AtomicOrdering) -> bool {
        c.load(core_ordering(load_ordering_or_seqcst(ord)))
    }

    fn store(c: &AtomicBool, val: bool, ord: AtomicOrdering) {
        c.store(val, core_ordering(store_ordering_or_seqcst(ord)))
    }

    fn compare_exchange(c: &AtomicBool, expected: bool, new: bool, success: AtomicOrdering, failure: AtomicOrdering) -> (bool, bool) {
        let orders = cmpxchg_ordering_or_seqcst(success, failure);
        match atomic_bool_compare_exchange(c, expected, new, core_ordering(orders.0), core_ordering(orders.1)) {
            Ok(v) => (v, true),
            Err(v) => (v, false),
        }
    }

    fn compare_exchange_weak(c: &AtomicBool, expected: bool, new: bool, success: AtomicOrdering, failure: AtomicOrdering) -> (bool, bool) {
        let orders = cmpxchg_ordering_or_seqcst(success, failure);
        match atomic_bool_compare_exchange_weak(c, expected, new, core_ordering(orders.0), core_ordering(orders.1)) {
            Ok(v) => (v, true),
            Err(v) => (v, false),
        }
    }

    fn swap(c: &AtomicBool, val: bool, ord: AtomicOrdering) -> bool {
        c.swap(val, core_ordering(ord))
    }
}

/// Calls `AtomicU8::get_mut`, which borrows the value of an exclusively owned
/// atomic. Nothing is claimed of the value: other threads may have stored
/// into the atomic before it came to be owned.
#[verifier::external_body]
fn atomic_u8_get_mut(c: &mut AtomicU8) -> &mut u8 {
    c.get_mut()
}

/// Calls `AtomicU8::compare_exchange`. As its documentation says, the result
/// is `Ok` of the previous value, which equals `current`, when `new` was
/// written, and otherwise `Err` of the previous value, which differs from
/// `current`; the call panics on a `Release` or `AcqRel` failure ordering.
/// What the previous value is depends on other threads and is not stated.
#[verifier::external_body]
fn atomic_u8_compare_exchange(c: &AtomicU8, current: u8, new: u8, success: Ordering, failure: Ordering) -> (r: Result<u8, u8>)
    requires
        failure != Ordering::Release,
        failure != Ordering::AcqRel,
    ensures
        r matches Ok(v) ==> v == current,
        r matches Err(v) ==> v != current,
{
    c.compare_exchange(current, new, success, failure)
}

/// Calls `AtomicU8::compare_exchange_weak`. As its documentation says, the
/// result is `Ok` of the previous value, which equals `current`, when `new`
/// was written, and otherwise `Err` of the previous value; unlike
/// `compare_exchange` it may fail spuriously, so nothing is claimed of an
/// `Err`. It panics where `compare_exchange` panics.
#[verifier::external_body]
fn atomic_u8_compare_exchange_weak(c: &AtomicU8, current: u8, new: u8, success: Ordering, failure: Ordering) -> (r: Result<u8, u8>)
    requires
        failure != Ordering::Release,
        failure != Ordering::AcqRel,
    ensures
        r matches Ok(v) ==> v == current,
{
    c.compare_exchange_weak(current, new, success, failure)
}

impl ArchAtomic for u8 {
    type Cell = AtomicU8;

    fn cell_new(v: u8) -> AtomicU8 {
        AtomicU8::new(v)
    }

    fn cell_into_inner(c: AtomicU8) -> u8 {
        c.load(Ordering::Relaxed)
    }

    fn cell_get_mut(c: &mut AtomicU8) -> &mut u8 {
        atomic_u8_get_mut(c)
    }

    fn load(c: &AtomicU8, ord: AtomicOrdering) -> u8 {
        c.load(core_ordering(load_ordering_or_seqcst(ord)))
    }

    fn store(c: &AtomicU8, val: u8, ord: AtomicOrdering) {
        c.store(val, core_ordering(store_ordering_or_seqcst(ord)))
    }

    fn compare_exchange(c: &AtomicU8, expected: u8, new: u8, success: AtomicOrdering, failure: AtomicOrdering) -> (u8, bool) {
        let orders = cmpxchg_ordering_or_seqcst(success, failure);
        match atomic_u8_compare_exchange(c, expected, new, core_ordering(orders.0), core_ordering(orders.1)) {
            Ok(v) => (v, true),
            Err(v) => (v, false),
        }
    }

    fn compare_exchange_weak(c: &AtomicU8, expected: u8, new: u8, success: AtomicOrdering, failure: AtomicOrdering) -> (u8, bool) {
        let orders = cmpxchg_ordering_or_seqcst(success, failure);
        match atomic_u8_compare_exchange_weak(c, expected, new, core_ordering(orders.0), core_ordering(orders.1)) {
            Ok(v) => (v, true),
            Err(v) => (v, false),
        }
    }

    fn swap(c: &AtomicU8, val: u8, ord: AtomicOrdering) -> u8 {
        c.swap(val, core_ordering(ord))
    }
}

impl ArchAtomicOps for u8 {
    fn fetch_add(c: &AtomicU8, val: u8, ord: AtomicOrdering) -> u8 {
        c.fetch_add(val, core_ordering(ord))
    }

    fn fetch_sub(c: &AtomicU8, val: u8, ord: AtomicOrdering) -> u8 {
        c.fetch_sub(val, core_ordering(ord))
    }
}

/// Calls `AtomicU16::get_mut`, which borrows the value of an exclusively owned
/// atomic. Nothing is claimed of the value: other threads may have stored
/// into the atomic before it came to be owned.
#[verifier::external_body]
fn atomic_u16_get_mut(c: &mut AtomicU16) -> &mut u16 {
    c.get_mut()
}

/// Calls `AtomicU16::compare_exchange`. As its documentation says, the result
/// is `Ok` of the previous value, which equals `current`, when `new` was
/// written, and otherwise `Err` of the previous value, which differs from
/// `current`; the call panics on a `Release` or `AcqRel` failure ordering.
/// What the previous value is depends on other threads and is not stated.
#[verifier::external_body]
fn atomic_u16_compare_exchange(c: &AtomicU16, current: u16, new: u16, success: Ordering, failure: Ordering) -> (r: Result<u16, u16>)
    requires
        failure != Ordering::Release,
        failure != Ordering::AcqRel,
    ensures
        r matches Ok(v) ==> v == current,
        r matches Err(v) ==> v != current,
{
    c.compare_exchange(current, new, success, failure)
}

/// Calls `AtomicU16::compare_exchange_weak`. As its documentation says, the
/// result is `Ok` of the previous value, which equals `current`, when `new`
/// was written, and otherwise `Err` of the previous value; unlike
/// `compare_exchange` it may fail spuriously, so nothing is claimed of an
/// `Err`. It panics where `compare_exchange` panics.
#[verifier::external_body]
fn atomic_u16_compare_exchange_weak(c: &AtomicU16, current: u16, new: u16, success: Ordering, failure: Ordering) -> (r: Result<u16, u16>)
    requires
        failure != Ordering::Release,
        failure != Ordering::AcqRel,
    ensures
        r matches Ok(v) ==> v == current,
{
    c.compare_exchange_weak(current, new, success, failure)
}

impl ArchAtomic for u16 {
    type Cell = AtomicU16;

    fn cell_new(v: u16) -> AtomicU16 {
        AtomicU16::new(v)
    }

    fn cell_into_inner(c: AtomicU16) -> u16 {
        c.load(Ordering::Relaxed)
    }

    fn cell_get_mut(c: &mut AtomicU16) -> &mut u16 {
        atomic_u16_get_mut(c)
    }

    fn load(c: &AtomicU16, ord: AtomicOrdering) -> u16 {
        c.load(core_ordering(load_ordering_or_seqcst(ord)))
    }

    fn store(c: &AtomicU16, val: u16, ord: AtomicOrdering) {
        c.store(val, core_ordering(store_ordering_or_seqcst(ord)))
    }

    fn compare_exchange(c: &AtomicU16, expected: u16, new: u16, success: AtomicOrdering, failure: AtomicOrdering) -> (u16, bool) {
        let orders = cmpxchg_ordering_or_seqcst(success, failure);
        match atomic_u16_compare_exchange(c, expected, new, core_ordering(orders.0), core_ordering(orders.1)) {
            Ok(v) => (v, true),
            Err(v) => (v, false),
        }
    }

    fn compare_exchange_weak(c: &AtomicU16, expected: u16, new: u16, success: AtomicOrdering, failure: AtomicOrdering) -> (u16, bool) {
        let orders = cmpxchg_ordering_or_seqcst(success, failure);
        match atomic_u16_compare_exchange_weak(c, expected, new, core_ordering(orders.0), core_ordering(orders.1)) {
            Ok(v) => (v, true),
            Err(v) => (v, false),
        }
    }

    fn swap(c: &AtomicU16, val: u16, ord: AtomicOrdering) -> u16 {
        c.swap(val, core_ordering(ord))
    }
}

impl ArchAtomicOps for u16 {
    fn fetch_add(c: &AtomicU16, val: u16, ord: AtomicOrdering) -> u16 {
        c.fetch_add(val, core_ordering(ord))
    }

    fn fetch_sub(c: &AtomicU16, val: u16, ord: AtomicOrdering) -> u16 {
        c.fetch_sub(val, core_ordering(ord))
    }
}

/// Calls `AtomicU32::get_mut`, which borrows the value of an exclusively owned
/// atomic. Nothing is claimed of the value: other threads may have stored
/// into the atomic before it came to be owned.
#[verifier::external_body]
fn atomic_u32_get_mut(c: &mut AtomicU32) -> &mut u32 {
    c.get_mut()
}

/// Calls `AtomicU32::compare_exchange`. As its documentation says, the result
/// is `Ok` of the previous value, which equals `current`, when `new` was
/// written, and otherwise `Err` of the previous value, which differs from
/// `current`; the call panics on a `Release` or `AcqRel` failure ordering.
/// What the previous value is depends on other threads and is not stated.
#[verifier::external_body]
fn atomic_u32_compare_exchange(c: &AtomicU32, current: u32, new: u32, success: Ordering, failure: Ordering) -> (r: Result<u32, u32>)
    requires
        failure != Ordering::Release,
        failure != Ordering::AcqRel,
    ensures
        r matches Ok(v) ==> v == current,
        r matches Err(v) ==> v != current,
{
    c.compare_exchange(current, new, success, failure)
}

/// Calls `AtomicU32::compare_exchange_weak`. As its documentation says, the
/// result is `Ok` of the previous value, which equals `current`, when `new`
/// was written, and otherwise `Err` of the previous value; unlike
/// `compare_exchange` it may fail spuriously, so nothing is claimed of an
/// `Err`. It panics where `compare_exchange` panics.
#[verifier::external_body]
fn atomic_u32_compare_exchange_weak(c: &AtomicU32, current: u32, new: u32, success: Ordering, failure: Ordering) -> (r: Result<u32, u32>)
    requires
        failure != Ordering::Release,
        failure != Ordering::AcqRel,
    ensures
        r matches Ok(v) ==> v == current,
{
    c.compare_exchange_weak(current, new, success, failure)
}

impl ArchAtomic for u32 {
    type Cell = AtomicU32;

    fn cell_new(v: u32) -> AtomicU32 {
        AtomicU32::new(v)
    }

    fn cell_into_inner(c: AtomicU32) -> u32 {
        c.load(Ordering::Relaxed)
    }

    fn cell_get_mut(c: &mut AtomicU32) -> &mut u32 {
        atomic_u32_get_mut(c)
    }

    fn load(c: &AtomicU32, ord: AtomicOrdering) -> u32 {
        c.load(core_ordering(load_ordering_or_seqcst(ord)))
    }

    fn store(c: &AtomicU32, val: u32, ord: AtomicOrdering) {
        c.store(val, core_ordering(store_ordering_or_seqcst(ord)))
    }

    fn compare_exchange(c: &AtomicU32, expected: u32, new: u32, success: AtomicOrdering, failure: AtomicOrdering) -> (u32, bool) {
        let orders = cmpxchg_ordering_or_seqcst(success, failure);
        match atomic_u32_compare_exchange(c, expected, new, core_ordering(orders.0), core_ordering(orders.1)) {
            Ok(v) => (v, true),
            Err(v) => (v, false),
        }
    }

    fn compare_exchange_weak(c: &AtomicU32, expected: u32, new: u32, success: AtomicOrdering, failure: AtomicOrdering) -> (u32, bool) {
        let orders = cmpxchg_ordering_or_seqcst(success, failure);
        match atomic_u32_compare_exchange_weak(c, expected, new, core_ordering(orders.0), core_ordering(orders.1)) {
            Ok(v) => (v, true),
            Err(v) => (v, false),
        }
    }

    fn swap(c: &AtomicU32, val: u32, ord: AtomicOrdering) -> u32 {
        c.swap(val, core_ordering(ord))
    }
}

impl ArchAtomicOps for u32 {
    fn fetch_add(c: &AtomicU32, val: u32, ord: AtomicOrdering) -> u32 {
        c.fetch_add(val, core_ordering(ord))
    }

    fn fetch_sub(c: &AtomicU32, val: u32, ord: AtomicOrdering) -> u32 {
        c.fetch_sub(val, core_ordering(ord))
    }
}

/// Calls `AtomicU64::get_mut`, which borrows the value of an exclusively owned
/// atomic. Nothing is claimed of the value: other threads may have stored
/// into the atomic before it came to be owned.
#[verifier::external_body]
fn atomic_u64_get_mut(c: &mut AtomicU64) -> &mut u64 {
    c.get_mut()
}

/// Calls `AtomicU64::compare_exchange`. As its documentation says, the result
/// is `Ok` of the previous value, which equals `current`, when `new` was
/// written, and otherwise `Err` of the previous value, which differs from
/// `current`; the call panics on a `Release` or `AcqRel` failure ordering.
/// What the previous value is depends on other threads and is not stated.
#[verifier::external_body]
fn atomic_u64_compare_exchange(c: &AtomicU64, current: u64, new: u64, success: Ordering, failure: Ordering) -> (r: Result<u64, u64>)
    requires
        failure != Ordering::Release,
        failure != Ordering::AcqRel,
    ensures
        r matches Ok(v) ==> v == current,
        r matches Err(v) ==> v != current,
{
    c.compare_exchange(current, new, success, failure)
}

/// Calls `AtomicU64::compare_exchange_weak`. As its documentation says, the
/// result is `Ok` of the previous value, which equals `current`, when `new`
/// was written, and otherwise `Err` of the previous value; unlike
/// `compare_exchange` it may fail spuriously, so nothing is claimed of an
/// `Err`. It panics where `compare_exchange` panics.
#[verifier::external_body]
fn atomic_u64_compare_exchange_weak(c: &AtomicU64, current: u64, new: u64, success: Ordering, failure: Ordering) -> (r: Result<u64, u64>)
    requires
        failure != Ordering::Release,
        failure != Ordering::AcqRel,
    ensures
        r matches Ok(v) ==> v == current,
{
    c.compare_exchange_weak(current, new, success, failure)
}

impl ArchAtomic for u64 {
    type Cell = AtomicU64;

    fn cell_new(v: u64) -> AtomicU64 {
        AtomicU64::new(v)
    }

    fn cell_into_inner(c: AtomicU64) -> u64 {
        c.load(Ordering::Relaxed)
    }

    fn cell_get_mut(c: &mut AtomicU64) -> &mut u64 {
        atomic_u64_get_mut(c)
    }

    fn load(c: &AtomicU64, ord: AtomicOrdering) -> u64 {
        c.load(core_ordering(load_ordering_or_seqcst(ord)))
    }

    fn store(c: &AtomicU64, val: u64, ord: AtomicOrdering) {
        c.store(val, core_ordering(store_ordering_or_seqcst(ord)))
    }

    fn compare_exchange(c: &AtomicU64, expected: u64, new: u64, success: AtomicOrdering, failure: AtomicOrdering) -> (u64, bool) {
        let orders = cmpxchg_ordering_or_seqcst(success, failure);
        match atomic_u64_compare_exchange(c, expected, new, core_ordering(orders.0), core_ordering(orders.1)) {
            Ok(v) => (v, true),
            Err(v) => (v, false),
        }
    }

    fn compare_exchange_weak(c: &AtomicU64, expected: u64, new: u64, success: AtomicOrdering, failure: AtomicOrdering) -> (u64, bool) {
        let orders = cmpxchg_ordering_or_seqcst(success, failure);
        match atomic_u64_compare_exchange_weak(c, expected, new, core_ordering(orders.0), core_ordering(orders.1)) {
            Ok(v) => (v, true),
            Err(v) => (v, false),
        }
    }

    fn swap(c: &AtomicU64, val: u64, ord: AtomicOrdering) -> u64 {
        c.swap(val, core_ordering(ord))
    }
}

impl ArchAtomicOps for u64 {
    fn fetch_add(c: &AtomicU64, val: u64, ord: AtomicOrdering) -> u64 {
        c.fetch_add(val, core_ordering(ord))
    }

    fn fetch_sub(c: &AtomicU64, val: u64, ord: AtomicOrdering) -> u64 {
        c.fetch_sub(val, core_ordering(ord))
    }
}

/// Calls `AtomicUsize::get_mut`, which borrows the value of an exclusively owned
/// atomic. Nothing is claimed of the value: other threads may have stored
/// into the atomic before it came to be owned.
#[verifier::external_body]
fn atomic_usize_get_mut(c: &mut AtomicUsize) -> &mut usize {
    c.get_mut()
}

/// Calls `AtomicUsize::compare_exchange`. As its documentation says, the result
/// is `Ok` of the previous value, which equals `current`, when `new` was
/// written, and otherwise `Err` of the previous value, which differs from
/// `current`; the call panics on a `Release` or `AcqRel` failure ordering.
/// What the previous value is depends on other threads and is not stated.
#[verifier::external_body]
fn atomic_usize_compare_exchange(c: &AtomicUsize, current: usize, new: usize, success: Ordering, failure: Ordering) -> (r: Result<usize, usize>)
    requires
        failure != Ordering::Release,
        failure != Ordering::AcqRel,
    ensures
        r matches Ok(v) ==> v == current,
        r matches Err(v) ==> v != current,
{
    c.compare_exchange(current, new, success, failure)
}

/// Calls `AtomicUsize::compare_exchange_weak`. As its documentation says, the
/// result is `Ok` of the previous value, which equals `current`, when `new`
/// was written, and otherwise `Err` of the previous value; unlike
/// `compare_exchange` it may fail spuriously, so nothing is claimed of an
/// `Err`. It panics where `compare_exchange` panics.
#[verifier::external_body]
fn atomic_usize_compare_exchange_weak(c: &AtomicUsize, current: usize, new: usize, success: Ordering, failure: Ordering) -> (r: Result<usize, usize>)
    requires
        failure != Ordering::Release,
        failure != Ordering::AcqRel,
    ensures
        r matches Ok(v) ==> v == current,
{
    c.compare_exchange_weak(current, new, success, failure)
}

impl ArchAtomic for usize {
    type Cell = AtomicUsize;

    fn cell_new(v: usize) -> AtomicUsize {
        AtomicUsize::new(v)
    }

    fn cell_into_inner(c: AtomicUsize) -> usize {
        c.load(Ordering::Relaxed)
    }

    fn cell_get_mut(c: &mut AtomicUsize) -> &mut usize {
        atomic_usize_get_mut(c)
    }

    fn load(c: &AtomicUsize, ord: AtomicOrdering) -> usize {
        c.load(core_ordering(load_ordering_or_seqcst(ord)))
    }

    fn store(c: &AtomicUsize, val: usize, ord: AtomicOrdering) {
        c.store(val, core_ordering(store_ordering_or_seqcst(ord)))
    }

    fn compare_exchange(c: &AtomicUsize, expected: usize, new: usize, success: AtomicOrdering, failure: AtomicOrdering) -> (usize, bool) {
        let orders = cmpxchg_ordering_or_seqcst(success, failure);
        match atomic_usize_compare_exchange(c, expected, new, core_ordering(orders.0), core_ordering(orders.1)) {
            Ok(v) => (v, true),
            Err(v) => (v, false),
        }
    }

    fn compare_exchange_weak(c: &AtomicUsize, expected: usize, new: usize, success: AtomicOrdering, failure: AtomicOrdering) -> (usize, bool) {
        let orders = cmpxchg_ordering_or_seqcst(success, failure);
        match atomic_usize_compare_exchange_weak(c, expected, new, core_ordering(orders.0), core_ordering(orders.1)) {
            Ok(v) => (v, true),
            Err(v) => (v, false),
        }
    }

    fn swap(c: &AtomicUsize, val: usize, ord: AtomicOrdering) -> usize {
        c.swap(val, core_ordering(ord))
    }
}

impl ArchAtomicOps for usize {
    fn fetch_add(c: &AtomicUsize, val: usize, ord: AtomicOrdering) -> usize {
        c.fetch_add(val, core_ordering(ord))
    }

    fn fetch_sub(c: &AtomicUsize, val: usize, ord: AtomicOrdering) -> usize {
        c.fetch_sub(val, core_ordering(ord))
    }
}

/// Calls `AtomicI8::get_mut`, which borrows the value of an exclusively owned
/// atomic. Nothing is claimed of the value: other threads may have stored
/// into the atomic before it came to be owned.
#[verifier::external_body]
fn atomic_i8_get_mut(c: &mut AtomicI8) -> &mut i8 {
    c.get_mut()
}

/// Calls `AtomicI8::compare_exchange`. As its documentation says, the result
/// is `Ok` of the previous value, which equals `current`, when `new` was
/// written, and otherwise `Err` of the previous value, which differs from
/// `current`; the call panics on a `Release` or `AcqRel` failure ordering.
/// What the previous value is depends on other threads and is not stated.
#[verifier::external_body]
fn atomic_i8_compare_exchange(c: &AtomicI8, current: i8, new: i8, success: Ordering, failure: Ordering) -> (r: Result<i8, i8>)
    requires
        failure != Ordering::Release,
        failure != Ordering::AcqRel,
    ensures
        r matches Ok(v) ==> v == current,
        r matches Err(v) ==> v != current,
{
    c.compare_exchange(current, new, success, failure)
}

/// Calls `AtomicI8::compare_exchange_weak`. As its documentation says, the
/// result is `Ok` of the previous value, which equals `current`, when `new`
/// was written, and otherwise `Err` of the previous value; unlike
/// `compare_exchange` it may fail spuriously, so nothing is claimed of an
/// `Err`. It panics where `compare_exchange` panics.
#[verifier::external_body]
fn atomic_i8_compare_exchange_weak(c: &AtomicI8, current: i8, new: i8, success: Ordering, failure: Ordering) -> (r: Result<i8, i8>)
    requires
        failure != Ordering::Release,
        failure != Ordering::AcqRel,
    ensures
        r matches Ok(v) ==> v == current,
{
    c.compare_exchange_weak(current, new, success, failure)
}

impl ArchAtomic for i8 {
    type Cell = AtomicI8;

    fn cell_new(v: i8) -> AtomicI8 {
        AtomicI8::new(v)
    }

    fn cell_into_inner(c: AtomicI8) -> i8 {
        c.load(Ordering::Relaxed)
    }

    fn cell_get_mut(c: &mut AtomicI8) -> &mut i8 {
        atomic_i8_get_mut(c)
    }

    fn load(c: &AtomicI8, ord: AtomicOrdering) -> i8 {
        c.load(core_ordering(load_ordering_or_seqcst(ord)))
    }

    fn store(c: &AtomicI8, val: i8, ord: AtomicOrdering) {
        c.store(val, core_ordering(store_ordering_or_seqcst(ord)))
    }

    fn compare_exchange(c: &AtomicI8, expected: i8, new: i8, success: AtomicOrdering, failure: AtomicOrdering) -> (i8, bool) {
        let orders = cmpxchg_ordering_or_seqcst(success, failure);
        match atomic_i8_compare_exchange(c, expected, new, core_ordering(orders.0), core_ordering(orders.1)) {
            Ok(v) => (v, true),
            Err(v) => (v, false),
        }
    }

    fn compare_exchange_weak(c: &AtomicI8, expected: i8, new: i8, success: AtomicOrdering, failure: AtomicOrdering) -> (i8, bool) {
        let orders = cmpxchg_ordering_or_seqcst(success, failure);
        match atomic_i8_compare_exchange_weak(c, expected, new, core_ordering(orders.0), core_ordering(orders.1)) {
            Ok(v) => (v, true),
            Err(v) => (v, false),
        }
    }

    fn swap(c: &AtomicI8, val: i8, ord: AtomicOrdering) -> i8 {
        c.swap(val, core_ordering(ord))
    }
}

impl ArchAtomicOps for i8 {
    fn fetch_add(c: &AtomicI8, val: i8, ord: AtomicOrdering) -> i8 {
        c.fetch_add(val, core_ordering(ord))
    }

    fn fetch_sub(c: &AtomicI8, val: i8, ord: AtomicOrdering) -> i8 {
        c.fetch_sub(val, core_ordering(ord))
    }
}

/// Calls `AtomicI16::get_mut`, which borrows the value of an exclusively owned
/// atomic. Nothing is claimed of the value: other threads may have stored
/// into the atomic before it came to be owned.
#[verifier::external_body]
fn atomic_i16_get_mut(c: &mut AtomicI16) -> &mut i16 {
    c.get_mut()
}

/// Calls `AtomicI16::compare_exchange`. As its documentation says, the result
/// is `Ok` of the previous value, which equals `current`, when `new` was
/// written, and otherwise `Err` of the previous value, which differs from
/// `current`; the call panics on a `Release` or `AcqRel` failure ordering.
/// What the previous value is depends on other threads and is not stated.
#[verifier::external_body]
fn atomic_i16_compare_exchange(c: &AtomicI16, current: i16, new: i16, success: Ordering, failure: Ordering) -> (r: Result<i16, i16>)
    requires
        failure != Ordering::Release,
        failure != Ordering::AcqRel,
    ensures
        r matches Ok(v) ==> v == current,
        r matches Err(v) ==> v != current,
{
    c.compare_exchange(current, new, success, failure)
}

/// Calls `AtomicI16::compare_exchange_weak`. As its documentation says, the
/// result is `Ok` of the previous value, which equals `current`, when `new`
/// was written, and otherwise `Err` of the previous value; unlike
/// `compare_exchange` it may fail spuriously, so nothing is claimed of an
/// `Err`. It panics where `compare_exchange` panics.
#[verifier::external_body]
fn atomic_i16_compare_exchange_weak(c: &AtomicI16, current: i16, new: i16, success: Ordering, failure: Ordering) -> (r: Result<i16, i16>)
    requires
        failure != Ordering::Release,
        failure != Ordering::AcqRel,
    ensures
        r matches Ok(v) ==> v == current,
{
    c.compare_exchange_weak(current, new, success, failure)
}

impl ArchAtomic for i16 {
    type Cell = AtomicI16;

    fn cell_new(v: i16) -> AtomicI16 {
        AtomicI16::new(v)
    }

    fn cell_into_inner(c: AtomicI16) -> i16 {
        c.load(Ordering::Relaxed)
    }

    fn cell_get_mut(c: &mut AtomicI16) -> &mut i16 {
        atomic_i16_get_mut(c)
    }

    fn load(c: &AtomicI16, ord: AtomicOrdering) -> i16 {
        c.load(core_ordering(load_ordering_or_seqcst(ord)))
    }

    fn store(c: &AtomicI16, val: i16, ord: AtomicOrdering) {
        c.store(val, core_ordering(store_ordering_or_seqcst(ord)))
    }

    fn compare_exchange(c: &AtomicI16, expected: i16, new: i16, success: AtomicOrdering, failure: AtomicOrdering) -> (i16, bool) {
        let orders = cmpxchg_ordering_or_seqcst(success, failure);
        match atomic_i16_compare_exchange(c, expected, new, core_ordering(orders.0), core_ordering(orders.1)) {
            Ok(v) => (v, true),
            Err(v) => (v, false),
        }
    }

    fn compare_exchange_weak(c: &AtomicI16, expected: i16, new: i16, success: AtomicOrdering, failure: AtomicOrdering) -> (i16, bool) {
        let orders = cmpxchg_ordering_or_seqcst(success, failure);
        match atomic_i16_compare_exchange_weak(c, expected, new, core_ordering(orders.0), core_ordering(orders.1)) {
            Ok(v) => (v, true),
            Err(v) => (v, false),
        }
    }

    fn swap(c: &AtomicI16, val: i16, ord: AtomicOrdering) -> i16 {
        c.swap(val, core_ordering(ord))
    }
}

impl ArchAtomicOps for i16 {
    fn fetch_add(c: &AtomicI16, val: i16, ord: AtomicOrdering) -> i16 {
        c.fetch_add(val, core_ordering(ord))
    }

    fn fetch_sub(c: &AtomicI16, val: i16, ord: AtomicOrdering) -> i16 {
        c.fetch_sub(val, core_ordering(ord))
    }
}

/// Calls `AtomicI32::get_mut`, which borrows the value of an exclusively owned
/// atomic. Nothing is claimed of the value: other threads may have stored
/// into the atomic before it came to be owned.
#[verifier::external_body]
fn atomic_i32_get_mut(c: &mut AtomicI32) -> &mut i32 {
    c.get_mut()
}

/// Calls `AtomicI32::compare_exchange`. As its documentation says, the result
/// is `Ok` of the previous value, which equals `current`, when `new` was
/// written, and otherwise `Err` of the previous value, which differs from
/// `current`; the call panics on a `Release` or `AcqRel` failure ordering.
/// What the previous value is depends on other threads and is not stated.
#[verifier::external_body]
fn atomic_i32_compare_exchange(c: &AtomicI32, current: i32, new: i32, success: Ordering, failure: Ordering) -> (r: Result<i32, i32>)
    requires
        failure != Ordering::Release,
        failure != Ordering::AcqRel,
    ensures
        r matches Ok(v) ==> v == current,
        r matches Err(v) ==> v != current,
{
    c.compare_exchange(current, new, success, failure)
}

/// Calls `AtomicI32::compare_exchange_weak`. As its documentation says, the
/// result is `Ok` of the previous value, which equals `current`, when `new`
/// was written, and otherwise `Err` of the previous value; unlike
/// `compare_exchange` it may fail spuriously, so nothing is claimed of an
/// `Err`. It panics where `compare_exchange` panics.
#[verifier::external_body]
fn atomic_i32_compare_exchange_weak(c: &AtomicI32, current: i32, new: i32, success: Ordering, failure: Ordering) -> (r: Result<i32, i32>)
    requires
        failure != Ordering::Release,
        failure != Ordering::AcqRel,
    ensures
        r matches Ok(v) ==> v == current,
{
    c.compare_exchange_weak(current, new, success, failure)
}

impl ArchAtomic for i32 {
    type Cell = AtomicI32;

    fn cell_new(v: i32) -> AtomicI32 {
        AtomicI32::new(v)
    }

    fn cell_into_inner(c: AtomicI32) -> i32 {
        c.load(Ordering::Relaxed)
    }

    fn cell_get_mut(c: &mut AtomicI32) -> &mut i32 {
        atomic_i32_get_mut(c)
    }

    fn load(c: &AtomicI32, ord: AtomicOrdering) -> i32 {
        c.load(core_ordering(load_ordering_or_seqcst(ord)))
    }

    fn store(c: &AtomicI32, val: i32, ord: AtomicOrdering) {
        c.store(val, core_ordering(store_ordering_or_seqcst(ord)))
    }

    fn compare_exchange(c: &AtomicI32, expected: i32, new: i32, success: AtomicOrdering, failure: AtomicOrdering) -> (i32, bool) {
        let orders = cmpxchg_ordering_or_seqcst(success, failure);
        match atomic_i32_compare_exchange(c, expected, new, core_ordering(orders.0), core_ordering(orders.1)) {
            Ok(v) => (v, true),
            Err(v) => (v, false),
        }
    }

    fn compare_exchange_weak(c: &AtomicI32, expected: i32, new: i32, success: AtomicOrdering, failure: AtomicOrdering) -> (i32, bool) {
        let orders = cmpxchg_ordering_or_seqcst(success, failure);
        match atomic_i32_compare_exchange_weak(c, expected, new, core_ordering(orders.0), core_ordering(orders.1)) {
            Ok(v) => (v, true),
            Err(v) => (v, false),
        }
    }

    fn swap(c: &AtomicI32, val: i32, ord: AtomicOrdering) -> i32 {
        c.swap(val, core_ordering(ord))
    }
}

impl ArchAtomicOps for i32 {
    fn fetch_add(c: &AtomicI32, val: i32, ord: AtomicOrdering) -> i32 {
        c.fetch_add(val, core_ordering(ord))
    }

    fn fetch_sub(c: &AtomicI32, val: i32, ord: AtomicOrdering) -> i32 {
        c.fetch_sub(val, core_ordering(ord))
    }
}

/// Calls `AtomicI64::get_mut`, which borrows the value of an exclusively owned
/// atomic. Nothing is claimed of the value: other threads may have stored
/// into the atomic before it came to be owned.
#[verifier::external_body]
fn atomic_i64_get_mut(c: &mut AtomicI64) -> &mut i64 {
    c.get_mut()
}

/// Calls `AtomicI64::compare_exchange`. As its documentation says, the result
/// is `Ok` of the previous value, which equals `current`, when `new` was
/// written, and otherwise `Err` of the previous value, which differs from
/// `current`; the call panics on a `Release` or `AcqRel` failure ordering.
/// What the previous value is depends on other threads and is not stated.
#[verifier::external_body]
fn atomic_i64_compare_exchange(c: &AtomicI64, current: i64, new: i64, success: Ordering, failure: Ordering) -> (r: Result<i64, i64>)
    requires
        failure != Ordering::Release,
        failure != Ordering::AcqRel,
    ensures
        r matches Ok(v) ==> v == current,
        r matches Err(v) ==> v != current,
{
    c.compare_exchange(current, new, success, failure)
}

/// Calls `AtomicI64::compare_exchange_weak`. As its documentation says, the
/// result is `Ok` of the previous value, which equals `current`, when `new`
/// was written, and otherwise `Err` of the previous value; unlike
/// `compare_exchange` it may fail spuriously, so nothing is claimed of an
/// `Err`. It panics where `compare_exchange` panics.
#[verifier::external_body]
fn atomic_i64_compare_exchange_weak(c: &AtomicI64, current: i64, new: i64, success: Ordering, failure: Ordering) -> (r: Result<i64, i64>)
    requires
        failure != Ordering::Release,
        failure != Ordering::AcqRel,
    ensures
        r matches Ok(v) ==> v == current,
{
    c.compare_exchange_weak(current, new, success, failure)
}

impl ArchAtomic for i64 {
    type Cell = AtomicI64;

    fn cell_new(v: i64) -> AtomicI64 {
        AtomicI64::new(v)
    }

    fn cell_into_inner(c: AtomicI64) -> i64 {
        c.load(Ordering::Relaxed)
    }

    fn cell_get_mut(c: &mut AtomicI64) -> &mut i64 {
        atomic_i64_get_mut(c)
    }

    fn load(c: &AtomicI64, ord: AtomicOrdering) -> i64 {
        c.load(core_ordering(load_ordering_or_seqcst(ord)))
    }

    fn store(c: &AtomicI64, val: i64, ord: AtomicOrdering) {
        c.store(val, core_ordering(store_ordering_or_seqcst(ord)))
    }

    fn compare_exchange(c: &AtomicI64, expected: i64, new: i64, success: AtomicOrdering, failure: AtomicOrdering) -> (i64, bool) {
        let orders = cmpxchg_ordering_or_seqcst(success, failure);
        match atomic_i64_compare_exchange(c, expected, new, core_ordering(orders.0), core_ordering(orders.1)) {
            Ok(v) => (v, true),
            Err(v) => (v, false),
        }
    }

    fn compare_exchange_weak(c: &AtomicI64, expected: i64, new: i64, success: AtomicOrdering, failure: AtomicOrdering) -> (i64, bool) {
        let orders = cmpxchg_ordering_or_seqcst(success, failure);
        match atomic_i64_compare_exchange_weak(c, expected, new, core_ordering(orders.0), core_ordering(orders.1)) {
            Ok(v) => (v, true),
            Err(v) => (v, false),
        }
    }

    fn swap(c: &AtomicI64, val: i64, ord: AtomicOrdering) -> i64 {
        c.swap(val, core_ordering(ord))
    }
}

impl ArchAtomicOps for i64 {
    fn fetch_add(c: &AtomicI64, val: i64, ord: AtomicOrdering) -> i64 {
        c.fetch_add(val, core_ordering(ord))
    }

    fn fetch_sub(c: &AtomicI64, val: i64, ord: AtomicOrdering) -> i64 {
        c.fetch_sub(val, core_ordering(ord))
    }
}

/// Calls `AtomicIsize::get_mut`, which borrows the value of an exclusively owned
/// atomic. Nothing is claimed of the value: other threads may have stored
/// into the atomic before it came to be owned.
#[verifier::external_body]
fn atomic_isize_get_mut(c: &mut AtomicIsize) -> &mut isize {
    c.get_mut()
}

/// Calls `AtomicIsize::compare_exchange`. As its documentation says, the result
/// is `Ok` of the previous value, which equals `current`, when `new` was
/// written, and otherwise `Err` of the previous value, which differs from
/// `current`; the call panics on a `Release` or `AcqRel` failure ordering.
/// What the previous value is depends on other threads and is not stated.
#[verifier::external_body]
fn atomic_isize_compare_exchange(c: &AtomicIsize, current: isize, new: isize, success: Ordering, failure: Ordering) -> (r: Result<isize, isize>)
    requires
        failure != Ordering::Release,
        failure != Ordering::AcqRel,
    ensures
        r matches Ok(v) ==> v == current,
        r matches Err(v) ==> v != current,
{
    c.compare_exchange(current, new, success, failure)
}

/// Calls `AtomicIsize::compare_exchange_weak`. As its documentation says, the
/// result is `Ok` of the previous value, which equals `current`, when `new`
/// was written, and otherwise `Err` of the previous value; unlike
/// `compare_exchange` it may fail spuriously, so nothing is claimed of an
/// `Err`. It panics where `compare_exchange` panics.
#[verifier::external_body]
fn atomic_isize_compare_exchange_weak(c: &AtomicIsize, current: isize, new: isize, success: Ordering, failure: Ordering) -> (r: Result<isize, isize>)
    requires
        failure != Ordering::Release,
        failure != Ordering::AcqRel,
    ensures
        r matches Ok(v) ==> v == current,
{
    c.compare_exchange_weak(current, new, success, failure)
}

impl ArchAtomic for isize {
    type Cell = AtomicIsize;

    fn cell_new(v: isize) -> AtomicIsize {
        AtomicIsize::new(v)
    }

    fn cell_into_inner(c: AtomicIsize) -> isize {
        c.load(Ordering::Relaxed)
    }

    fn cell_get_mut(c: &mut AtomicIsize) -> &mut isize {
        atomic_isize_get_mut(c)
    }

    fn load(c: &AtomicIsize, ord: AtomicOrdering) -> isize {
        c.load(core_ordering(load_ordering_or_seqcst(ord)))
    }

    fn store(c: &AtomicIsize, val: isize, ord: AtomicOrdering) {
        c.store(val, core_ordering(store_ordering_or_seqcst(ord)))
    }

    fn compare_exchange(c: &AtomicIsize, expected: isize, new: isize, success: AtomicOrdering, failure: AtomicOrdering) -> (isize, bool) {
        let orders = cmpxchg_ordering_or_seqcst(success, failure);
        match atomic_isize_compare_exchange(c, expected, new, core_ordering(orders.0), core_ordering(orders.1)) {
            Ok(v) => (v, true),
            Err(v) => (v, false),
        }
    }

    fn compare_exchange_weak(c: &AtomicIsize, expected: isize, new: isize, success: AtomicOrdering, failure: AtomicOrdering) -> (isize, bool) {
        let orders = cmpxchg_ordering_or_seqcst(success, failure);
        match atomic_isize_compare_exchange_weak(c, expected, new, core_ordering(orders.0), core_ordering(orders.1)) {
            Ok(v) => (v, true),
            Err(v) => (v, false),
        }
    }

    fn swap(c: &AtomicIsize, val: isize, ord: AtomicOrdering) -> isize {
        c.swap(val, core_ordering(ord))
    }
}

impl ArchAtomicOps for isize {
    fn fetch_add(c: &AtomicIsize, val: isize, ord: AtomicOrdering) -> isize {
        c.fetch_add(val, core_ordering(ord))
    }

    fn fetch_sub(c: &AtomicIsize, val: isize, ord: AtomicOrdering) -> isize {
        c.fetch_sub(val, core_ordering(ord))
    }
}

impl ArchAtomicFlag for bool {
    type Underlying = bool;

    fn test_and_set(c: &AtomicBool, ord: AtomicOrdering) -> bool {
        c.swap(true, core_ordering(ord))
    }

    fn clear(c: &AtomicBool, ord: AtomicOrdering) {
        c.store(false, core_ordering(store_ordering_or_seqcst(ord)))
    }
}

} // verus!
