//! What the thread that waits on the timer does each time the wait ends.
//!
//! The thread itself belongs to the caller: it blocks on the timer, asks
//! `after_wake` what to do, and does it. It delivers the signal to the
//! monitored thread, never to itself.

use vstd::prelude::*;

verus! {

/// The next step of the thread that waits on the timer.
#[derive(Clone, Copy, Debug, PartialEq, Eq, Structural)]
pub enum WatchStep {
    /// Interrupt the monitored thread with the watchdog's signal, then wait on
    /// the timer again.
    Deliver,
    /// Leave the loop and end the thread.
    Stop,
}

/// The step that follows a wait: the signal is delivered where the timer
/// fired and shutdown has not begun; in every other case the thread ends.
pub open spec fn step_after_wake(fired: bool, terminated: bool) -> WatchStep {
    if fired && !terminated {
        WatchStep::Deliver
    } else {
        WatchStep::Stop
    }
}

/// Decides what the waiting thread does once its wait on the timer has ended.
/// `fired` says whether the wait ended because the timer went off, rather than
/// in an error; `terminated` is what the termination flag reads.
pub fn after_wake(fired: bool, terminated: bool) -> (step: WatchStep)
    ensures
        step == step_after_wake(fired, terminated),
{
    if !fired {
        WatchStep::Stop
    } else if terminated {
        WatchStep::Stop
    } else {
        WatchStep::Deliver
    }
}

/// Once the termination flag is up, the first wait that ends is the last:
/// the thread stops, whether the timer fired for a deadline, for the wake-up
/// of shutdown, or not at all. No signal is delivered after shutdown has been
/// seen.
pub proof fn lemma_stops_once_terminated(fired: bool)
    ensures
        step_after_wake(fired, true) == WatchStep::Stop,
{
}

} // verus!
