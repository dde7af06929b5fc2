# lib: portable atomics, verified

A Verus library of atomic memory operations for targets with and without
native atomics.

- `ordering`: the memory orderings and the rules on which an operation may
  use: checks that return the error (`check_*_ordering`), asserts that
  require an allowed ordering (`assert_*_ordering`), and their laws.
- `align`: natural alignment (`clamp_round_size`) and alignment markers.
- `arch`: the target's atomic cells (`ArchAtomic`, `ArchAtomicFlag`,
  `ArchAtomicOps`) for bool and the integers up to 64 bits,
  `ArchAtomicStorage`, `AtomicArchImpl`, `AtomicFlag`.
- `locking`: the fallback that guards a value with a lock, and its
  compare-exchange step (`exchange_step`).
- `export`: `AtomicTy<T>` and the `Atomic*Ty` types, choosing between the two.
- `spin`: spin locks over a flag or over a word; `os_prims`: the back-off.
  A `Guard` of `SpinLock` has no destructor: free the lock with
  `Guard::unlock`, since dropping the guard leaves the lock held.
- `fp`: bit containers for half and quad precision values.

`app/` holds what Verus cannot check: the spin loops that wait for a lock,
process abort, raw-memory intrinsics and floating-point arithmetic.
