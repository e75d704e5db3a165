//! The guard that brackets one monitored quantum.
//!
//! A guard is made when a queue is entered and the policy wants it watched. It
//! holds the watchdog for as long as the quantum runs, so no second deadline
//! can be set meanwhile. Leaving consumes the guard: a quantum is concluded
//! once.

use vstd::prelude::*;
use crate::detector::deadline_for;
use crate::detector::StallDetector;
use crate::detector::StallDetectorView;
use crate::error::StallError;
use crate::error::StallErrorKind;
use crate::policy::StallDetectionHandler;
use crate::queue::TaskQueueHandle;
use crate::report::StallDetection;
use crate::time::elapsed_since;
use crate::time::spec_saturating_add;
use crate::time::spec_saturating_sub;
use crate::time::Duration;
use crate::timer::alarm_after_unset;
use crate::timer::Expiration;
use crate::trace::frame_count;
use crate::trace::addresses;
use crate::trace::trace_depth;
use crate::trace::trace_frames;
use crate::trace::trace_resolved;
use crate::trace::resolve_trace;
use crate::trace::trace_from_frames;

verus! {

/// The guard of a quantum that is being watched: the deadline is set, the
/// queue is running.
pub struct StallDetectorGuard<'detector, H: StallDetectionHandler + ?Sized> {
    detector: &'detector mut StallDetector<H>,
    queue_handle: TaskQueueHandle,
    queue_name: String,
    start: std::time::Instant,
    threshold: Duration,
}

/// How a watched quantum ended.
#[derive(Debug)]
pub enum GuardOutcome {
    /// No frame was captured: the queue was left before the interrupt landed.
    Clean,
    /// Frames were captured, and the policy has been told.
    Stalled {
        /// The number of frames captured.
        frames: usize,
        /// The time from the start of the quantum to the moment it was
        /// concluded.
        elapsed: Duration,
        /// The time the queue ran beyond its budget.
        overage: Duration,
        /// What the policy wants written to the log, if anything.
        warning: Option<String>,
    },
}

/// What leaving a quantum came to.
#[derive(Debug)]
pub struct Departure {
    /// How the quantum ended.
    pub outcome: GuardOutcome,
    /// The refusal of the timer to drop the deadline, if it refused. The
    /// quantum is over either way.
    pub disarm_failure: Option<StallError>,
}

/// A guard as the contracts speak of it.
pub struct StallDetectorGuardView {
    /// The queue that is running.
    pub queue_handle: TaskQueueHandle,
    /// The name of that queue.
    pub queue_name: Seq<char>,
    /// The moment the quantum began.
    pub start: std::time::Instant,
    /// The budget of the quantum: its expected runtime and the slack.
    pub threshold: Duration,
}

impl<'detector, H: StallDetectionHandler + ?Sized> View for StallDetectorGuard<'detector, H> {
    type V = StallDetectorGuardView;

    closed spec fn view(&self) -> StallDetectorGuardView {
        StallDetectorGuardView {
            queue_handle: self.queue_handle,
            queue_name: self.queue_name@,
            start: self.start,
            threshold: self.threshold,
        }
    }
}

impl<'detector, H: StallDetectionHandler + ?Sized> StallDetectorGuard<'detector, H> {
    /// The watchdog that the guard holds.
    pub closed spec fn detector(&self) -> &'detector mut StallDetector<H> {
        self.detector
    }

    /// Whether the guard stands for the quantum of the given queue, begun at
    /// `start` with the budget `threshold`, on a watchdog that was `before`
    /// and now has the deadline of that budget on its timer.
    pub open spec fn watches(
        &self,
        before: StallDetectorView<H>,
        queue_handle: TaskQueueHandle,
        queue_name: Seq<char>,
        start: std::time::Instant,
        threshold: Duration,
    ) -> bool {
        &&& self@ == StallDetectorGuardView { queue_handle, queue_name, start, threshold }
        &&& self.detector()@ == before.with_alarm(
            Some(Expiration::OneShot(deadline_for(threshold))),
        )
    }

    /// Sets the deadline and, where the timer accepts it, makes the guard.
    /// Where the timer refuses there is no guard, and the watchdog is as it
    /// was.
    pub(crate) fn new(
        detector: &'detector mut StallDetector<H>,
        queue_handle: TaskQueueHandle,
        queue_name: String,
        start: std::time::Instant,
        threshold: Duration,
    ) -> (guard: Result<StallDetectorGuard<'detector, H>, StallError>)
        ensures
            match guard {
                Ok(g) => {
                    &&& g.watches(old(detector)@, queue_handle, queue_name@, start, threshold)
                    &&& *final(detector) == *final(g.detector())
                },
                Err(e) => e.kind == StallErrorKind::Arm && final(detector)@ == old(detector)@,
            },
    {
        match detector.arm(threshold) {
            Ok(()) => Ok(StallDetectorGuard { detector, queue_handle, queue_name, start, threshold }),
            Err(e) => Err(e),
        }
    }

    /// The queue that is running.
    pub fn queue_handle(&self) -> (queue_handle: TaskQueueHandle)
        ensures
            queue_handle == self@.queue_handle,
    {
        self.queue_handle
    }

    /// The name of the queue that is running.
    pub fn queue_name(&self) -> (queue_name: &str)
        ensures
            queue_name@ == self@.queue_name,
    {
        self.queue_name.as_str()
    }

    /// The moment the quantum began.
    pub fn start(&self) -> (start: std::time::Instant)
        ensures
            start == self@.start,
    {
        self.start
    }

    /// The budget of the quantum.
    pub fn threshold(&self) -> (threshold: Duration)
        ensures
            threshold == self@.threshold,
    {
        self.threshold
    }

    /// Decides how the quantum ended from the frames that were on the intake
    /// channel when it was left. Without frames the quantum was clean, however
    /// long it ran. With frames the stall is confirmed: the trace is made of
    /// them and resolved, the overage is what the clock shows beyond the
    /// budget, and the policy is told. Leaving calls this once, with what it
    /// has drained.
    pub fn conclude(&self, captured: Vec<backtrace::BacktraceFrame>) -> (outcome: GuardOutcome)
        ensures
            match outcome {
                GuardOutcome::Clean => captured@.len() == 0,
                GuardOutcome::Stalled { frames, elapsed, overage, warning } => {
                    &&& captured@.len() > 0
                    &&& frames == captured@.len()
                    &&& overage.wf()
                    &&& overage@ == spec_saturating_sub(elapsed@, self@.threshold@)
                    &&& exists|detection: StallDetection|
                        {
                            &&& #[trigger] call_ensures(
                                H::stall,
                                (&*self.detector()@.stall_handler, detection),
                                warning,
                            )
                            &&& detection@.executor == self.detector()@.id
                            &&& detection@.queue_handle == self@.queue_handle
                            &&& detection@.queue_name == self@.queue_name
                            &&& detection@.budget == self@.threshold
                            &&& detection@.overage == overage
                            &&& trace_frames(detection@.trace) == addresses(captured@)
                            &&& trace_resolved(detection@.trace)
                        }
                },
            },
    {
        let mut trace = trace_from_frames(captured);
        let frames = frame_count(&trace);
        if frames == 0 {
            return GuardOutcome::Clean;
        }
        let elapsed = elapsed_since(&self.start);
        resolve_trace(&mut trace);
        let detection = StallDetection::new(
            self.detector.id(),
            self.queue_handle,
            self.queue_name.as_str(),
            trace,
            self.threshold,
            elapsed,
        );
        let overage = detection.overage();
        let warning = self.detector.stall_handler().stall(detection);
        GuardOutcome::Stalled { frames, elapsed, overage, warning }
    }

    /// Leaves the quantum. The deadline is dropped first, and a refusal of the
    /// timer is handed back rather than raised: the quantum is over either
    /// way. Then every frame on the intake channel is taken off, and the
    /// quantum is concluded from them.
    pub fn leave(self) -> (departure: Departure)
        ensures
            final(self.detector())@ == self.detector()@.with_alarm(
                alarm_after_unset(
                    self.detector()@.timer.alarm,
                    departure.disarm_failure is None,
                ),
            ),
            departure.disarm_failure matches Some(e) ==> e.kind == StallErrorKind::Disarm,
            departure.outcome matches GuardOutcome::Stalled { frames, elapsed, overage, warning }
                ==> {
                &&& frames > 0
                &&& overage.wf()
                &&& overage@ == spec_saturating_sub(elapsed@, self@.threshold@)
                &&& exists|detection: StallDetection|
                    {
                        &&& #[trigger] call_ensures(
                            H::stall,
                            (&*self.detector()@.stall_handler, detection),
                            warning,
                        )
                        &&& detection@.executor == self.detector()@.id
                        &&& detection@.queue_handle == self@.queue_handle
                        &&& detection@.queue_name == self@.queue_name
                        &&& detection@.budget == self@.threshold
                        &&& detection@.overage == overage
                        &&& trace_depth(detection@.trace) == frames
                        &&& trace_resolved(detection@.trace)
                    }
            },
    {
        let disarm_failure = match self.detector.disarm() {
            Ok(()) => None,
            Err(e) => Some(e),
        };
        let captured = self.detector.drain();
        let outcome = self.conclude(captured);
        Departure { outcome, disarm_failure }
    }
}

impl<H: StallDetectionHandler + ?Sized> StallDetector<H> {
    /// Enters a queue: asks the policy whether the quantum is to be watched
    /// and with how much slack, and where it is, sets the deadline and hands
    /// out the guard. The budget is the expected runtime and the slack that
    /// the policy answered, together. Where the policy declines, nothing is
    /// touched. Where the timer refuses the deadline there is no guard, and
    /// the quantum must not run as if it were watched.
    pub fn enter_task_queue<'d>(
        &'d mut self,
        queue_handle: TaskQueueHandle,
        queue_name: String,
        start: std::time::Instant,
        max_expected_runtime: Duration,
    ) -> (entered: Result<Option<StallDetectorGuard<'d, H>>, StallError>)
        ensures
            exists|mark: Option<Duration>|
                {
                    &&& #[trigger] call_ensures(
                        H::high_water_mark,
                        (&*old(self)@.stall_handler, queue_handle, max_expected_runtime),
                        mark,
                    )
                    &&& match mark {
                        None => entered matches Ok(None),
                        Some(slack) => match entered {
                            Ok(Some(g)) => g@.threshold@ == spec_saturating_add(
                                max_expected_runtime@,
                                slack@,
                            ),
                            Ok(None) => false,
                            Err(_) => true,
                        },
                    }
                },
            match entered {
                Ok(Some(g)) => {
                    &&& g.watches(old(self)@, queue_handle, queue_name@, start, g@.threshold)
                    &&& g@.threshold.wf()
                    &&& g@.threshold@ >= max_expected_runtime@
                    &&& *final(self) == *final(g.detector())
                },
                Ok(None) => *final(self) == *old(self),
                Err(e) => e.kind == StallErrorKind::Arm && final(self)@ == old(self)@,
            },
    {
        let high_water_mark = self.stall_handler().high_water_mark(
            queue_handle,
            max_expected_runtime,
        );
        self.enter_with_mark(queue_handle, queue_name, start, max_expected_runtime, high_water_mark)
    }

    /// Enters a queue with the slack that the policy has answered. Without a
    /// slack there is no guard and nothing is touched. With one, the budget is
    /// the expected runtime and the slack together, cut off at the longest
    /// span.
    pub fn enter_with_mark<'d>(
        &'d mut self,
        queue_handle: TaskQueueHandle,
        queue_name: String,
        start: std::time::Instant,
        max_expected_runtime: Duration,
        high_water_mark: Option<Duration>,
    ) -> (entered: Result<Option<StallDetectorGuard<'d, H>>, StallError>)
        ensures
            match high_water_mark {
                None => entered matches Ok(None) && *final(self) == *old(self),
                Some(slack) => match entered {
                    Ok(Some(g)) => {
                        &&& g.watches(old(self)@, queue_handle, queue_name@, start, g@.threshold)
                        &&& g@.threshold.wf()
                        &&& g@.threshold@ == spec_saturating_add(max_expected_runtime@, slack@)
                        &&& g@.threshold@ >= max_expected_runtime@
                        &&& *final(self) == *final(g.detector())
                    },
                    Ok(None) => false,
                    Err(e) => e.kind == StallErrorKind::Arm && final(self)@ == old(self)@,
                },
            },
    {
        match high_water_mark {
            None => Ok(None),
            Some(slack) => {
                let threshold = max_expected_runtime.saturating_add(slack);
                match StallDetectorGuard::new(self, queue_handle, queue_name, start, threshold) {
                    Ok(guard) => Ok(Some(guard)),
                    Err(e) => Err(e),
                }
            },
        }
    }
}

} // verus!
