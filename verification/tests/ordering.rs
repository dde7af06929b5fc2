use lib::ordering::assert_cmpxchg_ordering;
use lib::ordering::assert_load_ordering;
use lib::ordering::assert_store_ordering;
use lib::ordering::check_cmpxchg_ordering;
use lib::ordering::check_load_ordering;
use lib::ordering::check_store_ordering;
use lib::ordering::cmpxchg_ordering_or_seqcst;
use lib::ordering::load_ordering_or_seqcst;
use lib::ordering::store_ordering_or_seqcst;
use lib::ordering::AtomicOrdering;
use lib::ordering::OrderingError;
use lib::ordering::AtomicOrdering::Relaxed;
use lib::ordering::AtomicOrdering::Acquire;
use lib::ordering::AtomicOrdering::Release;
use lib::ordering::AtomicOrdering::AcqRel;
use lib::ordering::AtomicOrdering::SeqCst;

const ALL: [AtomicOrdering; 5] = [
    AtomicOrdering::Relaxed,
    AtomicOrdering::Acquire,
    AtomicOrdering::Release,
    AtomicOrdering::AcqRel,
    AtomicOrdering::SeqCst,
];

#[test]
fn load_orderings() {
    assert_eq!(check_load_ordering(AtomicOrdering::Relaxed), Ok(()));
    assert_eq!(check_load_ordering(AtomicOrdering::Acquire), Ok(()));
    assert_eq!(check_load_ordering(AtomicOrdering::SeqCst), Ok(()));
    assert_eq!(
        check_load_ordering(AtomicOrdering::Release),
        Err(OrderingError::NotAllowedForLoad(AtomicOrdering::Release))
    );
    assert_eq!(
        check_load_ordering(AtomicOrdering::AcqRel),
        Err(OrderingError::NotAllowedForLoad(AtomicOrdering::AcqRel))
    );
}

#[test]
fn store_orderings() {
    assert_eq!(check_store_ordering(AtomicOrdering::Relaxed), Ok(()));
    assert_eq!(check_store_ordering(AtomicOrdering::Release), Ok(()));
    assert_eq!(check_store_ordering(AtomicOrdering::SeqCst), Ok(()));
    assert_eq!(
        check_store_ordering(AtomicOrdering::Acquire),
        Err(OrderingError::NotAllowedForStore(AtomicOrdering::Acquire))
    );
    assert_eq!(
        check_store_ordering(AtomicOrdering::AcqRel),
        Err(OrderingError::NotAllowedForStore(AtomicOrdering::AcqRel))
    );
}

#[test]
fn cmpxchg_orderings_accepted() {
    let accepted = [
        (Relaxed, Relaxed),
        (Release, Relaxed),
        (Acquire, Relaxed),
        (Acquire, Acquire),
        (AcqRel, Relaxed),
        (AcqRel, Acquire),
        (SeqCst, Relaxed),
        (SeqCst, Acquire),
        (SeqCst, SeqCst),
    ];
    for s in ALL {
        for f in ALL {
            let expected_ok = accepted.contains(&(s, f));
            assert_eq!(check_cmpxchg_ordering(s, f).is_ok(), expected_ok, "{:?} {:?}", s, f);
        }
    }
}

#[test]
fn cmpxchg_failure_release_refused() {
    for s in ALL {
        assert_eq!(check_cmpxchg_ordering(s, Release), Err(OrderingError::FailureNotAllowed(Release)));
        assert_eq!(check_cmpxchg_ordering(s, AcqRel), Err(OrderingError::FailureNotAllowed(AcqRel)));
    }
}

#[test]
fn cmpxchg_failure_stronger_refused() {
    assert_eq!(
        check_cmpxchg_ordering(Relaxed, Acquire),
        Err(OrderingError::FailureStrongerThanSuccess { failure: Acquire, success: Relaxed })
    );
    assert_eq!(
        check_cmpxchg_ordering(Release, SeqCst),
        Err(OrderingError::FailureStrongerThanSuccess { failure: SeqCst, success: Release })
    );
    assert_eq!(
        check_cmpxchg_ordering(AcqRel, SeqCst),
        Err(OrderingError::FailureStrongerThanSuccess { failure: SeqCst, success: AcqRel })
    );
    assert_eq!(
        check_cmpxchg_ordering(Acquire, SeqCst),
        Err(OrderingError::FailureStrongerThanSuccess { failure: SeqCst, success: Acquire })
    );
}

#[test]
fn strengthened_orderings() {
    assert_eq!(load_ordering_or_seqcst(Acquire), Acquire);
    assert_eq!(load_ordering_or_seqcst(Release), SeqCst);
    assert_eq!(load_ordering_or_seqcst(AcqRel), SeqCst);
    assert_eq!(store_ordering_or_seqcst(Release), Release);
    assert_eq!(store_ordering_or_seqcst(Acquire), SeqCst);
    assert_eq!(store_ordering_or_seqcst(AcqRel), SeqCst);
    assert_eq!(cmpxchg_ordering_or_seqcst(AcqRel, Acquire), (AcqRel, Acquire));
    assert_eq!(cmpxchg_ordering_or_seqcst(Relaxed, SeqCst), (SeqCst, SeqCst));
    assert_eq!(cmpxchg_ordering_or_seqcst(SeqCst, Release), (SeqCst, SeqCst));
}

#[test]
fn asserts_accept_allowed_orderings() {
    assert_load_ordering(Relaxed);
    assert_load_ordering(Acquire);
    assert_load_ordering(SeqCst);
    assert_store_ordering(Relaxed);
    assert_store_ordering(Release);
    assert_store_ordering(SeqCst);
    assert_cmpxchg_ordering(AcqRel, Acquire);
    assert_cmpxchg_ordering(SeqCst, SeqCst);
    assert_cmpxchg_ordering(Release, Relaxed);
}
