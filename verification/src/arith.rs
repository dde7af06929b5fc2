use vstd::prelude::*;

verus! {

/// An integer that atomics add to and subtract from; `IS_SIGNED` tells
/// whether it is signed.
pub trait AtomicWithArith: Sized {
    const IS_SIGNED: bool;
}

impl<T: AtomicWithArith> AtomicWithArith for core::mem::MaybeUninit<T> {
    const IS_SIGNED: bool = T::IS_SIGNED;
}

impl AtomicWithArith for u8 {
    const IS_SIGNED: bool = false;
}

impl AtomicWithArith for u16 {
    const IS_SIGNED: bool = false;
}

impl AtomicWithArith for u32 {
    const IS_SIGNED: bool = false;
}

impl AtomicWithArith for u64 {
    const IS_SIGNED: bool = false;
}

impl AtomicWithArith for u128 {
    const IS_SIGNED: bool = false;
}

impl AtomicWithArith for usize {
    const IS_SIGNED: bool = false;
}

impl AtomicWithArith for i8 {
    const IS_SIGNED: bool = true;
}

impl AtomicWithArith for i16 {
    const IS_SIGNED: bool = true;
}

impl AtomicWithArith for i32 {
    const IS_SIGNED: bool = true;
}

impl AtomicWithArith for i64 {
    const IS_SIGNED: bool = true;
}

impl AtomicWithArith for i128 {
    const IS_SIGNED: bool = true;
}

impl AtomicWithArith for isize {
    const IS_SIGNED: bool = true;
}

} // verus!
