use vstd::prelude::*;

verus! {

/// The memory ordering of an atomic operation, from the weakest to the
/// strongest: `Relaxed`, `Acquire` and `Release`, `AcqRel`, `SeqCst`.
#[derive(Clone, Copy, Debug, PartialEq, Eq, Structural)]
pub enum AtomicOrdering {
    Relaxed,
    Acquire,
    Release,
    AcqRel,
    SeqCst,
}

/// Why an ordering was refused for an operation.
#[derive(Clone, Copy, Debug, PartialEq, Eq, Structural)]
pub enum OrderingError {
    /// The ordering has a release part, which a load cannot have.
    NotAllowedForLoad(AtomicOrdering),
    /// The ordering has an acquire part, which a store cannot have.
    NotAllowedForStore(AtomicOrdering),
    /// The failure ordering of a compare-exchange has a release part.
    FailureNotAllowed(AtomicOrdering),
    /// The failure ordering of a compare-exchange is stronger than the
    /// load part of its success ordering.
    FailureStrongerThanSuccess { failure: AtomicOrdering, success: AtomicOrdering },
}

/// An ordering that a load may use: one without a release part.
pub open spec fn is_load_ordering(ord: AtomicOrdering) -> bool {
    ord != AtomicOrdering::Release && ord != AtomicOrdering::AcqRel
}

/// An ordering that a store may use: one without an acquire part.
pub open spec fn is_store_ordering(ord: AtomicOrdering) -> bool {
    ord != AtomicOrdering::Acquire && ord != AtomicOrdering::AcqRel
}

/// The ordering that the load performed by an operation of ordering `ord`
/// carries: the release part is dropped.
pub open spec fn load_part(ord: AtomicOrdering) -> AtomicOrdering {
    match ord {
        AtomicOrdering::Relaxed => AtomicOrdering::Relaxed,
        AtomicOrdering::Release => AtomicOrdering::Relaxed,
        AtomicOrdering::Acquire => AtomicOrdering::Acquire,
        AtomicOrdering::AcqRel => AtomicOrdering::Acquire,
        AtomicOrdering::SeqCst => AtomicOrdering::SeqCst,
    }
}

/// The strength of a load ordering: `Relaxed` < `Acquire` < `SeqCst`.
pub open spec fn load_strength(ord: AtomicOrdering) -> int {
    match ord {
        AtomicOrdering::Relaxed => 0,
        AtomicOrdering::Acquire => 1,
        AtomicOrdering::Release => 0,
        AtomicOrdering::AcqRel => 1,
        AtomicOrdering::SeqCst => 2,
    }
}

/// A pair of orderings that a compare-exchange may use: the failure
/// ordering is a load ordering, no stronger than the load part of the
/// success ordering.
pub open spec fn is_cmpxchg_ordering(success: AtomicOrdering, failure: AtomicOrdering) -> bool {
    &&& is_load_ordering(failure)
    &&& load_strength(failure) <= load_strength(load_part(success))
}

/// Checks that `ord` may order a load: `Ok` where it may, else the error.
pub fn check_load_ordering(ord: AtomicOrdering) -> (r: Result<(), OrderingError>)
    ensures
        r is Ok <==> is_load_ordering(ord),
        r is Err ==> r == Err::<(), OrderingError>(OrderingError::NotAllowedForLoad(ord)),
{
    match ord {
        AtomicOrdering::AcqRel | AtomicOrdering::Release => Err(OrderingError::NotAllowedForLoad(ord)),
        _ => Ok(()),
    }
}

/// Checks that `ord` may order a store: `Ok` where it may, else the error.
pub fn check_store_ordering(ord: AtomicOrdering) -> (r: Result<(), OrderingError>)
    ensures
        r is Ok <==> is_store_ordering(ord),
        r is Err ==> r == Err::<(), OrderingError>(OrderingError::NotAllowedForStore(ord)),
{
    match ord {
        AtomicOrdering::AcqRel | AtomicOrdering::Acquire => Err(OrderingError::NotAllowedForStore(ord)),
        _ => Ok(()),
    }
}

/// Checks that `succ_ord` and `fail_ord` may order a compare-exchange:
/// `Ok` where they may, else the error.
pub fn check_cmpxchg_ordering(succ_ord: AtomicOrdering, fail_ord: AtomicOrdering) -> (r: Result<(), OrderingError>)
    ensures
        r is Ok <==> is_cmpxchg_ordering(succ_ord, fail_ord),
        !is_load_ordering(fail_ord) ==> r == Err::<(), OrderingError>(OrderingError::FailureNotAllowed(fail_ord)),
        is_load_ordering(fail_ord) && !is_cmpxchg_ordering(succ_ord, fail_ord) ==> r == Err::<(), OrderingError>(
            OrderingError::FailureStrongerThanSuccess { failure: fail_ord, success: succ_ord },
        ),
{
    match (succ_ord, fail_ord) {
        (AtomicOrdering::Relaxed | AtomicOrdering::Release, AtomicOrdering::Relaxed) => Ok(()),
        (AtomicOrdering::Acquire | AtomicOrdering::AcqRel, AtomicOrdering::Relaxed | AtomicOrdering::Acquire) => Ok(()),
        (_, AtomicOrdering::Release | AtomicOrdering::AcqRel) => Err(OrderingError::FailureNotAllowed(fail_ord)),
        (AtomicOrdering::Relaxed, _) => Err(
            OrderingError::FailureStrongerThanSuccess { failure: fail_ord, success: succ_ord },
        ),
        (AtomicOrdering::Acquire | AtomicOrdering::AcqRel | AtomicOrdering::Release, _) => Err(
            OrderingError::FailureStrongerThanSuccess { failure: fail_ord, success: succ_ord },
        ),
        (AtomicOrdering::SeqCst, _) => Ok(()),
    }
}

/// Asserts that `ord` may order a load; a load with a release part is
/// refused by `requires` (use `check_load_ordering` to test an ordering).
pub fn assert_load_ordering(ord: AtomicOrdering)
    requires
        is_load_ordering(ord),
{
    let r = check_load_ordering(ord);
    assert(r is Ok);
}

/// Asserts that `ord` may order a store; a store with an acquire part is
/// refused by `requires` (use `check_store_ordering` to test an ordering).
pub fn assert_store_ordering(ord: AtomicOrdering)
    requires
        is_store_ordering(ord),
{
    let r = check_store_ordering(ord);
    assert(r is Ok);
}

/// Asserts that `succ_ord` and `fail_ord` may order a compare-exchange; any
/// other pair is refused by `requires` (use `check_cmpxchg_ordering` to
/// test a pair).
pub fn assert_cmpxchg_ordering(succ_ord: AtomicOrdering, fail_ord: AtomicOrdering)
    requires
        is_cmpxchg_ordering(succ_ord, fail_ord),
{
    let r = check_cmpxchg_ordering(succ_ord, fail_ord);
    assert(r is Ok);
}

/// `ord` where it may order a load, and `SeqCst` where it may not.
pub fn load_ordering_or_seqcst(ord: AtomicOrdering) -> (r: AtomicOrdering)
    ensures
        is_load_ordering(r),
        is_load_ordering(ord) ==> r == ord,
        !is_load_ordering(ord) ==> r == AtomicOrdering::SeqCst,
{
    match ord {
        AtomicOrdering::AcqRel | AtomicOrdering::Release => AtomicOrdering::SeqCst,
        _ => ord,
    }
}

/// `ord` where it may order a store, and `SeqCst` where it may not.
pub fn store_ordering_or_seqcst(ord: AtomicOrdering) -> (r: AtomicOrdering)
    ensures
        is_store_ordering(r),
        is_store_ordering(ord) ==> r == ord,
        !is_store_ordering(ord) ==> r == AtomicOrdering::SeqCst,
{
    match ord {
        AtomicOrdering::AcqRel | AtomicOrdering::Acquire => AtomicOrdering::SeqCst,
        _ => ord,
    }
}

/// `(success, failure)` where they may order a compare-exchange, and
/// `(SeqCst, SeqCst)` where they may not.
pub fn cmpxchg_ordering_or_seqcst(success: AtomicOrdering, failure: AtomicOrdering) -> (r: (AtomicOrdering, AtomicOrdering))
    ensures
        is_cmpxchg_ordering(r.0, r.1),
        is_cmpxchg_ordering(success, failure) ==> r == (success, failure),
        !is_cmpxchg_ordering(success, failure) ==> r == (AtomicOrdering::SeqCst, AtomicOrdering::SeqCst),
{
    match check_cmpxchg_ordering(success, failure) {
        Ok(()) => (success, failure),
        Err(_) => (AtomicOrdering::SeqCst, AtomicOrdering::SeqCst),
    }
}

/// Every ordering that may order a load is a failure ordering that a
/// `SeqCst` compare-exchange accepts, and no other is.
pub proof fn lemma_seqcst_success_admits_load_failures(failure: AtomicOrdering)
    ensures
        is_cmpxchg_ordering(AtomicOrdering::SeqCst, failure) <==> is_load_ordering(failure),
{
}

/// A `Relaxed` failure ordering is accepted whatever the success ordering.
pub proof fn lemma_relaxed_failure_always_admitted(success: AtomicOrdering)
    ensures
        is_cmpxchg_ordering(success, AtomicOrdering::Relaxed),
{
}

/// A failure ordering accepted with some success ordering is accepted with
/// every success ordering whose load part is at least as strong.
pub proof fn lemma_stronger_success_keeps_failure(success: AtomicOrdering, stronger: AtomicOrdering, failure: AtomicOrdering)
    requires
        is_cmpxchg_ordering(success, failure),
        load_strength(load_part(success)) <= load_strength(load_part(stronger)),
    ensures
        is_cmpxchg_ordering(stronger, failure),
{
}

/// The failure ordering of an accepted compare-exchange is an ordering that
/// a load may have, and never a release ordering.
pub proof fn lemma_cmpxchg_failure_is_load_ordering(success: AtomicOrdering, failure: AtomicOrdering)
    requires
        is_cmpxchg_ordering(success, failure),
    ensures
        is_load_ordering(failure),
        failure != AtomicOrdering::Release,
        failure != AtomicOrdering::AcqRel,
{
}

} // verus!
