use lib::os_prims::pause;
use lib::os_prims::spin_backoff;
use lib::os_prims::yield_thread;
use lib::os_prims::SpinAction;
use lib::os_prims::SPIN_LIMIT;
use lib::spin::atomic_usize;
use lib::spin::SpinLock;
use lib::spin::SpinLockImpl;

#[test]
fn flag_lock_try_lock() {
    let l = SpinLockImpl::new();
    assert!(l.try_lock());
    assert!(!l.try_lock());
    l.unlock();
    assert!(l.try_lock());
}

#[test]
fn word_lock_try_lock() {
    let l = atomic_usize::SpinLockImpl::new();
    assert!(l.try_lock());
    assert!(!l.try_lock());
    assert!(!l.try_lock_weak());
    l.unlock();
    assert!(l.try_lock());
    assert_eq!(atomic_usize::LOCK_ENGAGED, 1);
}

#[test]
fn spin_lock_guard() {
    let mut l = SpinLock::new();
    let g = l.try_lock().ok().unwrap();
    assert!(l.try_lock().is_err());
    g.unlock();
    let g2 = l.try_lock();
    assert!(g2.is_ok());
    std::mem::forget(g2);
    l.force_unlock();
    assert!(l.try_lock().is_ok());
}

#[test]
fn backoff_spins_then_yields() {
    assert_eq!(SPIN_LIMIT, 16);
    assert_eq!(spin_backoff(0), (SpinAction::Spin, 1));
    assert_eq!(spin_backoff(15), (SpinAction::Spin, 16));
    assert_eq!(spin_backoff(16), (SpinAction::Yield, 17));
    assert_eq!(spin_backoff(1000), (SpinAction::Yield, 1001));
    pause(SpinAction::Spin);
    pause(SpinAction::Yield);
    yield_thread();
}
