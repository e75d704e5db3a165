//! A per-thread stall watchdog for a cooperative, single-threaded task scheduler.
//!
//! A task queue that fails to yield within its budget stalls the whole thread.
//! The watchdog arms a monotonic timer when a queue is entered; if the timer
//! fires before the queue is left, the monitored thread is interrupted, the
//! frames of its stack are pushed into an intake channel, and the guard that
//! brackets the quantum turns them into a report for the detection policy.
//!
//! Everything that decides or computes lives here and is verified. Blocking on
//! the timer, delivering the signal and writing to the log are left to the
//! caller, which is handed plain values describing what to do.

pub mod error;
pub mod time;
pub mod queue;
pub mod timer;
pub mod trace;
pub mod intake;
pub mod text;
pub mod report;
pub mod policy;
pub mod detector;
pub mod guard;
pub mod watch;
