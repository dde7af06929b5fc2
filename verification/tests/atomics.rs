use lib::arch::ArchAtomic;
use lib::arch::ArchAtomicOps;
use lib::arch::ArchAtomicStorage;
use lib::arch::AtomicArchImpl;
use lib::arch::AtomicFlag;
use lib::arith::AtomicWithArith;
use lib::export::AtomicBoolTy;
use lib::export::AtomicI128Ty;
use lib::export::AtomicI16Ty;
use lib::export::AtomicI32Ty;
use lib::export::AtomicI64Ty;
use lib::export::AtomicI8Ty;
use lib::export::AtomicIsizeTy;
use lib::export::AtomicU128Ty;
use lib::export::AtomicU16Ty;
use lib::export::AtomicU32Ty;
use lib::export::AtomicU64Ty;
use lib::export::AtomicU8Ty;
use lib::export::AtomicUsizeTy;
use lib::export::Fallback;
use lib::export::HasAtomicArchSel;
use lib::locking::exchange_step;
use lib::locking::AtomicLockingImpl;

use lib::ordering::AtomicOrdering::Relaxed;
use lib::ordering::AtomicOrdering::Acquire;
use lib::ordering::AtomicOrdering::Release;
use lib::ordering::AtomicOrdering::AcqRel;
use lib::ordering::AtomicOrdering::SeqCst;

#[test]
fn arch_impl_load_store() {
    let a = AtomicArchImpl::<u32>::new(7);
    assert_eq!(a.load(SeqCst), 7);
    a.store(9, Release);
    assert_eq!(a.load(Acquire), 9);
    assert_eq!(a.into_inner(), 9);
}

#[test]
fn arch_impl_strengthens_refused_orderings() {
    let a = AtomicArchImpl::<u8>::new(1);
    a.store(2, Acquire);
    assert_eq!(a.load(Release), 2);
    assert_eq!(a.compare_exchange(2, 3, Relaxed, SeqCst), Ok(2));
    assert_eq!(a.load(AcqRel), 3);
}

#[test]
fn arch_impl_compare_exchange() {
    let a = AtomicArchImpl::<u64>::new(5);
    assert_eq!(a.compare_exchange(5, 6, AcqRel, Acquire), Ok(5));
    assert_eq!(a.compare_exchange(5, 7, AcqRel, Acquire), Err(6));
    assert_eq!(a.load(SeqCst), 6);
}

#[test]
fn arch_impl_compare_exchange_weak() {
    let a = AtomicArchImpl::<u16>::new(1);
    loop {
        match a.compare_exchange_weak(1, 2, SeqCst, SeqCst) {
            Ok(v) => {
                assert_eq!(v, 1);
                break;
            }
            Err(v) => assert_eq!(v, 1),
        }
    }
    assert_eq!(a.compare_exchange_weak(1, 3, SeqCst, SeqCst), Err(2));
}

#[test]
fn arch_impl_get_mut() {
    let mut a = AtomicArchImpl::<usize>::new(3);
    *a.get_mut() += 4;
    assert_eq!(a.load(Relaxed), 7);
}

#[test]
fn storage_get_and_ops() {
    let mut s = ArchAtomicStorage::<u32>::new(10);
    assert_eq!(<u32 as ArchAtomic>::swap(s.get(), 11, SeqCst), 10);
    assert_eq!(<u32 as ArchAtomicOps>::fetch_add(s.get(), 5, SeqCst), 11);
    assert_eq!(<u32 as ArchAtomicOps>::fetch_sub(s.get(), 20, SeqCst), 16);
    assert_eq!(*s.get_mut(), u32::MAX - 3);
    assert_eq!(s.into_inner(), u32::MAX - 3);
}

#[test]
fn flag_test_and_set() {
    let f = AtomicFlag::new(false);
    assert!(!f.test_and_set(Acquire));
    assert!(f.test_and_set(Acquire));
    f.clear(Release);
    assert!(!f.test_and_set(SeqCst));
    assert!(f.into_inner());
    assert!(!AtomicFlag::new(false).into_inner());
}

#[test]
fn locking_impl() {
    let a = AtomicLockingImpl::<u128>::new(1 << 100);
    assert_eq!(a.load(SeqCst), 1 << 100);
    a.store(42, SeqCst);
    assert_eq!(a.load(Relaxed), 42);
    assert_eq!(a.compare_exchange(41, 1, SeqCst, SeqCst), Err(42));
    assert_eq!(a.compare_exchange_weak(40, 1, SeqCst, SeqCst), Err(42));
    assert_eq!(a.into_inner(), 42);
}

#[test]
fn locking_impl_compare_exchange_writes_back_expected() {
    let a = AtomicLockingImpl::<i128>::new(-5);
    assert_eq!(a.compare_exchange(-5, 9, SeqCst, SeqCst), Ok(-5));
    assert_eq!(a.load(SeqCst), -5);
    assert_eq!(a.compare_exchange_weak(-5, 9, SeqCst, SeqCst), Ok(-5));
    assert_eq!(a.load(SeqCst), -5);
}

#[test]
fn exported_unsigned() {
    let a = AtomicU8Ty::new(200);
    a.store(201, Release);
    assert_eq!(a.compare_exchange(201, 202, AcqRel, Acquire), Ok(201));
    assert_eq!(a.into_inner(), 202);
    let b = AtomicU16Ty::new(1);
    assert_eq!(b.compare_exchange(2, 3, SeqCst, Relaxed), Err(1));
    let c = AtomicU32Ty::new(u32::MAX);
    assert_eq!(c.load(Acquire), u32::MAX);
    let d = AtomicU64Ty::new(1 << 40);
    assert_eq!(d.load(SeqCst), 1 << 40);
    let e = AtomicUsizeTy::new(usize::MAX);
    assert_eq!(e.compare_exchange_weak(0, 1, SeqCst, SeqCst), Err(usize::MAX));
}

#[test]
fn exported_signed() {
    let a = AtomicI8Ty::new(-1);
    assert_eq!(a.load(SeqCst), -1);
    assert_eq!(a.compare_exchange(-1, i8::MIN, SeqCst, SeqCst), Ok(-1));
    assert_eq!(a.into_inner(), i8::MIN);
    let b = AtomicI16Ty::new(-300);
    assert_eq!(b.compare_exchange(300, 1, SeqCst, SeqCst), Err(-300));
    let c = AtomicI32Ty::new(i32::MIN);
    c.store(-7, SeqCst);
    assert_eq!(c.load(SeqCst), -7);
    let d = AtomicI64Ty::new(-1);
    assert_eq!(d.compare_exchange(-1, 5, SeqCst, SeqCst), Ok(-1));
    assert_eq!(d.load(Relaxed), 5);
    let e = AtomicIsizeTy::new(isize::MIN);
    assert_eq!(e.into_inner(), isize::MIN);
}

#[test]
fn exported_bool_and_wide() {
    let a = AtomicBoolTy::new(false);
    assert_eq!(a.compare_exchange(false, true, SeqCst, SeqCst), Ok(false));
    assert_eq!(a.compare_exchange(false, true, SeqCst, SeqCst), Err(true));
    let b = AtomicU128Ty::new(u128::MAX);
    assert_eq!(b.load(SeqCst), u128::MAX);
    b.store(3, SeqCst);
    assert_eq!(b.compare_exchange(4, 1, SeqCst, SeqCst), Err(3));
    let c = AtomicI128Ty::new(i128::MIN);
    assert_eq!(c.into_inner(), i128::MIN);
}

#[test]
fn arith_signedness() {
    assert!(!<u8 as AtomicWithArith>::IS_SIGNED);
    assert!(!<usize as AtomicWithArith>::IS_SIGNED);
    assert!(!<u128 as AtomicWithArith>::IS_SIGNED);
    assert!(<i8 as AtomicWithArith>::IS_SIGNED);
    assert!(<isize as AtomicWithArith>::IS_SIGNED);
    assert!(<i128 as AtomicWithArith>::IS_SIGNED);
}

#[test]
fn arch_selection() {
    assert!(HasAtomicArchSel::<u32>::HAS_ARCH);
    assert!(HasAtomicArchSel::<bool>::HAS_ARCH);
    assert!(!<HasAtomicArchSel<u128> as Fallback>::HAS_ARCH);
    assert!(!HasAtomicArchSel::<i128>::HAS_ARCH);
}

#[test]
fn exported_get_mut() {
    let mut a = AtomicU8Ty::new(3);
    *a.get_mut() = 9;
    assert_eq!(a.load(SeqCst), 9);
    let mut b = AtomicBoolTy::new(false);
    *b.get_mut() = true;
    assert!(b.into_inner());
    let mut c = AtomicUsizeTy::new(1);
    *c.get_mut() += 1;
    assert_eq!(c.into_inner(), 2);
}

#[test]
fn exchange_step_values() {
    assert_eq!(exchange_step(5u128, 5, 9), (5, Ok(5)));
    assert_eq!(exchange_step(6u128, 5, 9), (6, Err(6)));
    assert_eq!(exchange_step(-1i128, -1, 0), (-1, Ok(-1)));
}

#[test]
fn arith_signedness_of_uninit() {
    assert!(<core::mem::MaybeUninit<i32> as AtomicWithArith>::IS_SIGNED);
    assert!(!<core::mem::MaybeUninit<u64> as AtomicWithArith>::IS_SIGNED);
}

#[test]
fn exported_signed_get_mut_and_ops() {
    let mut a = AtomicI32Ty::new(-4);
    *a.get_mut() -= 3;
    assert_eq!(a.load(SeqCst), -7);
    let mut b = AtomicIsizeTy::new(isize::MIN);
    *b.get_mut() += 1;
    assert_eq!(b.into_inner(), isize::MIN + 1);
    let s = ArchAtomicStorage::<i16>::new(-1);
    assert_eq!(<i16 as ArchAtomicOps>::fetch_add(s.get(), 1, SeqCst), -1);
    assert_eq!(<i16 as ArchAtomicOps>::fetch_sub(s.get(), 1, SeqCst), 0);
    assert_eq!(s.into_inner(), -1);
}
