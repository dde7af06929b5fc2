use vstd::prelude::*;

verus! {

/// Calls `core::hint::spin_loop`, which tells the processor that the
/// caller is spinning; it has no effect that the library observes.
#[verifier::external_body]
fn spin_loop_hint() {
    core::hint::spin_loop()
}

/// Gives way to other threads while waiting. Without an operating system to
/// ask, this is a spin-loop hint to the processor.
pub fn yield_thread() {
    spin_loop_hint()
}

/// What a waiting thread does before it tries again.
#[derive(Clone, Copy, Debug, PartialEq, Eq, Structural)]
pub enum SpinAction {
    /// Hint to the processor that the thread is spinning.
    Spin,
    /// Give way to other threads.
    Yield,
}

/// The number of failed attempts after which a waiting thread gives way to
/// other threads in place of spinning.
pub const SPIN_LIMIT: usize = 16;

/// The back-off of a thread that has failed `step_counter` times to take a
/// lock: it spins for the first `SPIN_LIMIT` attempts and yields after
/// that; the counter goes up by one.
pub fn spin_backoff(step_counter: usize) -> (r: (SpinAction, usize))
    requires
        step_counter < usize::MAX,
    ensures
        r.0 == (if step_counter >= SPIN_LIMIT { SpinAction::Yield } else { SpinAction::Spin }),
        r.1 == step_counter + 1,
{
    let action = if step_counter >= SPIN_LIMIT {
        SpinAction::Yield
    } else {
        SpinAction::Spin
    };
    (action, step_counter + 1)
}

/// Performs `action`: yields to other threads or hints that the thread spins.
pub fn pause(action: SpinAction) {
    match action {
        SpinAction::Yield => yield_thread(),
        SpinAction::Spin => spin_loop_hint(),
    }
}

} // verus!
