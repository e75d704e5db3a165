//! The detection policy: whether a queue is watched, with how much slack, by
//! which signal, and what becomes of a confirmed stall.

use vstd::prelude::*;
use crate::queue::TaskQueueHandle;
use crate::report::StallDetection;
use crate::text::report_text;
use crate::time::duration_debug_text;
use crate::time::Duration;
use crate::time::NANOS_PER_MILLI;

verus! {

/// The smallest slack that the default policy grants, in milliseconds.
pub const MIN_SLACK_MILLIS: u64 = 10;

/// What a watchdog asks of its policy. A policy is fixed when the watchdog is
/// made and is consulted on the monitored thread, once per quantum.
pub trait StallDetectionHandler: Send + Sync {
    /// How far past its expected runtime a queue may run before it counts as
    /// stalled. `None` leaves the quantum unwatched.
    fn high_water_mark(
        &self,
        queue_handle: TaskQueueHandle,
        max_expected_runtime: Duration,
    ) -> Option<Duration>;

    /// The number of the signal that interrupts the monitored thread.
    fn signal(&self) -> u8;

    /// Called once for each confirmed stall, with a report whose trace holds
    /// at least one frame and is resolved. What it returns, if anything, is a line for the caller to
    /// write to its log as a warning.
    fn stall(&self, detection: StallDetection<'_>) -> Option<String>
        requires
            detection@.confirmed(),
    ;
}

/// The slack that the default policy grants a queue expected to run for
/// `runtime` nanoseconds: a tenth of the runtime, and ten milliseconds where
/// the tenth is less.
pub open spec fn default_high_water_mark(runtime: nat) -> nat {
    if runtime / 10 < MIN_SLACK_MILLIS * NANOS_PER_MILLI {
        (MIN_SLACK_MILLIS * NANOS_PER_MILLI) as nat
    } else {
        runtime / 10
    }
}

/// The policy used where none is chosen: every queue is watched, with a slack
/// of a tenth of its expected runtime and ten milliseconds at least; the
/// interrupt is the first user-defined signal; a stall becomes a warning.
#[derive(Debug)]
pub struct DefaultStallDetectionHandler {}

/// Whether `number` is what a system that has the timer gives the first
/// user-defined signal: 10 on most of them, 16 on MIPS, 30 on SPARC.
pub open spec fn is_first_user_signal(number: u8) -> bool {
    number == 10 || number == 16 || number == 30
}

/// `nix::libc::SIGUSR1`: the number of the first user-defined signal. Which
/// number it is depends on the machine. On Linux and Android, the systems
/// whose timer this library uses, `libc` defines it as one of three.
#[verifier::external_body]
fn user_signal() -> (number: u8)
    ensures
        is_first_user_signal(number),
{
    nix::libc::SIGUSR1 as u8
}

impl StallDetectionHandler for DefaultStallDetectionHandler {
    fn high_water_mark(
        &self,
        queue_handle: TaskQueueHandle,
        max_expected_runtime: Duration,
    ) -> (mark: Option<Duration>)
        ensures
            mark matches Some(slack) && slack.wf() && slack@ == default_high_water_mark(
                max_expected_runtime@,
            ),
    {
        let tenth = Duration::from_nanos(max_expected_runtime.as_nanos() / 10);
        Some(tenth.max(Duration::from_millis(MIN_SLACK_MILLIS)))
    }

    fn signal(&self) -> (number: u8)
        ensures
            is_first_user_signal(number),
    {
        user_signal()
    }

    fn stall(&self, detection: StallDetection<'_>) -> (warning: Option<String>)
        ensures
            warning matches Some(line) && exists|trace: Seq<char>|
                line@ == #[trigger] report_text(
                    detection@.executor as nat,
                    detection@.queue_name,
                    duration_debug_text(detection@.overage@),
                    duration_debug_text(detection@.budget@),
                    trace,
                ),
    {
        Some(detection.message())
    }
}

/// The default slack is exactly the larger of a tenth of the runtime and ten
/// milliseconds, for every runtime.
pub proof fn lemma_default_high_water_mark_exact(runtime: nat)
    ensures
        default_high_water_mark(runtime) == vstd::math::max(
            (runtime / 10) as int,
            (MIN_SLACK_MILLIS * NANOS_PER_MILLI) as int,
        ),
{
}

/// The default slack is never below ten milliseconds nor below a tenth of the
/// runtime, it is one of the two, and it is a span whenever the runtime is.
pub proof fn lemma_default_high_water_mark_bounds(runtime: nat)
    ensures
        default_high_water_mark(runtime) >= MIN_SLACK_MILLIS * NANOS_PER_MILLI,
        default_high_water_mark(runtime) >= runtime / 10,
        default_high_water_mark(runtime) == runtime / 10 || default_high_water_mark(runtime)
            == MIN_SLACK_MILLIS * NANOS_PER_MILLI,
        runtime <= crate::time::max_nanos() ==> default_high_water_mark(runtime)
            <= crate::time::max_nanos(),
{
}

} // verus!
