//! The watchdog of one monitored thread.

use vstd::prelude::*;
use std::sync::atomic::AtomicBool;
use std::sync::atomic::Ordering;
use std::sync::Arc;
use crate::error::refusal;
use crate::error::StallError;
use crate::error::StallErrorKind;
use crate::intake::frame_channel;
use crate::intake::gather;
use crate::intake::intake_capacity;
use crate::intake::try_receive;
use crate::policy::StallDetectionHandler;
use crate::time::Duration;
use crate::timer::alarm_after_unset;
use crate::timer::Expiration;
use crate::timer::Timer;
use crate::timer::TimerView;

verus! {

/// The number of frames that the intake channel holds at most. A frame pushed
/// into a full channel is dropped by the producer.
pub const FRAME_CAPACITY: usize = 1024;

/// The period, in milliseconds, at which the timer fires once the watchdog
/// shuts down, so that the thread waiting on it wakes and sees that it is to
/// end.
pub const WAKE_INTERVAL_MILLIS: u64 = 1;

/// The watchdog of one monitored thread: its timer, its policy, its intake
/// channel, and the flag that tells the thread waiting on the timer to end.
/// The policy may be of one type or a trait object.
pub struct StallDetector<H: StallDetectionHandler + ?Sized> {
    timer: Timer,
    stall_handler: Box<H>,
    id: usize,
    signal: u8,
    terminated: Arc<AtomicBool>,
    tx: crossbeam::channel::Sender<backtrace::BacktraceFrame>,
    rx: crossbeam::channel::Receiver<backtrace::BacktraceFrame>,
    terminating: bool,
}

/// A watchdog as the contracts speak of it.
pub struct StallDetectorView<H: StallDetectionHandler + ?Sized> {
    /// The identity of the executor that owns the watchdog.
    pub id: usize,
    /// The number of the signal that interrupts the monitored thread, as the
    /// policy gave it when the watchdog was made.
    pub signal: u8,
    /// The timer and the alarm it holds.
    pub timer: TimerView,
    /// Whether shutdown has begun. Once set, it stays set.
    pub terminating: bool,
    /// The number of frames that the intake channel holds at most.
    pub capacity: nat,
    /// The policy. It is fixed when the watchdog is made.
    pub stall_handler: Box<H>,
    /// The flag that the thread waiting on the timer reads.
    pub terminated: Arc<AtomicBool>,
    /// The producer's end of the intake channel.
    pub tx: crossbeam::channel::Sender<backtrace::BacktraceFrame>,
    /// The consumer's end of the intake channel.
    pub rx: crossbeam::channel::Receiver<backtrace::BacktraceFrame>,
}

impl<H: StallDetectionHandler + ?Sized> StallDetectorView<H> {
    /// The same watchdog with `alarm` on its timer.
    pub open spec fn with_alarm(self, alarm: Option<Expiration>) -> StallDetectorView<H> {
        StallDetectorView { timer: TimerView { alarm, ..self.timer }, ..self }
    }

    /// The same watchdog after shutdown has begun.
    pub open spec fn shutting_down(self) -> StallDetectorView<H> {
        StallDetectorView { terminating: true, ..self }
    }
}

impl<H: StallDetectionHandler + ?Sized> View for StallDetector<H> {
    type V = StallDetectorView<H>;

    closed spec fn view(&self) -> StallDetectorView<H> {
        StallDetectorView {
            id: self.id,
            signal: self.signal,
            timer: self.timer@,
            terminating: self.terminating,
            capacity: intake_capacity(self.rx),
            stall_handler: self.stall_handler,
            terminated: self.terminated,
            tx: self.tx,
            rx: self.rx,
        }
    }
}

impl<H: StallDetectionHandler + ?Sized> StallDetector<H> {
    /// The watchdog of the calling thread, or the reason why the operating
    /// system granted it no timer. No deadline is set yet.
    pub fn new(executor_id: usize, stall_handler: Box<H>) -> (detector: Result<
        StallDetector<H>,
        StallError,
    >)
        ensures
            match detector {
                Ok(d) => {
                    &&& d@.id == executor_id
                    &&& d@.stall_handler == stall_handler
                    &&& call_ensures(H::signal, (&*stall_handler,), d@.signal)
                    &&& d@.timer.alarm is None
                    &&& !d@.terminating
                    &&& d@.capacity == FRAME_CAPACITY
                },
                Err(e) => e.kind == StallErrorKind::CreateTimer,
            },
    {
        match refusal(StallErrorKind::CreateTimer, Timer::new()) {
            Ok(timer) => {
                let signal = stall_handler.signal();
                Ok(StallDetector::from_parts(executor_id, stall_handler, signal, timer))
            },
            Err(e) => Err(e),
        }
    }

    /// The watchdog made of a timer and a policy, with the signal that the
    /// policy has named. It starts with an empty intake channel and with its
    /// termination flag down.
    pub fn from_parts(
        executor_id: usize,
        stall_handler: Box<H>,
        signal: u8,
        timer: Timer,
    ) -> (detector: StallDetector<H>)
        ensures
            detector@.id == executor_id,
            detector@.signal == signal,
            detector@.stall_handler == stall_handler,
            detector@.timer == timer@,
            !detector@.terminating,
            detector@.capacity == FRAME_CAPACITY,
    {
        let terminated = Arc::new(AtomicBool::new(false));
        let (tx, rx) = frame_channel(FRAME_CAPACITY);
        StallDetector {
            timer,
            stall_handler,
            id: executor_id,
            signal,
            terminated,
            tx,
            rx,
            terminating: false,
        }
    }

    /// Sets the deadline of a quantum: the timer fires once, `threshold` from
    /// now, unless it is set anew or disarmed before. A deadline set earlier is
    /// gone. A timer set to an empty span would be disarmed, so an empty
    /// threshold is set as the shortest span there is: the quantum is then
    /// overdue at once. Where the timer refuses, the watchdog is left as it
    /// was.
    pub fn arm(&mut self, threshold: Duration) -> (outcome: Result<(), StallError>)
        ensures
            final(self)@ == old(self)@.with_alarm(
                if outcome is Ok {
                    Some(Expiration::OneShot(deadline_for(threshold)))
                } else {
                    old(self)@.timer.alarm
                },
            ),
            outcome matches Err(e) ==> e.kind == StallErrorKind::Arm,
    {
        let deadline = if threshold.is_zero() {
            Duration::nanosecond()
        } else {
            threshold
        };
        refusal(StallErrorKind::Arm, self.timer.set(Expiration::OneShot(deadline)))
    }

    /// Removes the deadline, if one is set. Where the timer refuses, the
    /// watchdog is left as it was.
    pub fn disarm(&mut self) -> (outcome: Result<(), StallError>)
        ensures
            final(self)@ == old(self)@.with_alarm(
                alarm_after_unset(old(self)@.timer.alarm, outcome is Ok),
            ),
            outcome matches Err(e) ==> e.kind == StallErrorKind::Disarm,
    {
        refusal(StallErrorKind::Disarm, self.timer.unset())
    }

    /// Begins shutdown: raises the termination flag and makes the timer fire
    /// at a short interval, so that the thread waiting on it wakes whether or
    /// not a quantum is being watched. The caller then joins that thread.
    pub fn shutdown(&mut self) -> (outcome: Result<(), StallError>)
        ensures
            final(self)@ == old(self)@.shutting_down().with_alarm(
                if outcome is Ok {
                    Some(Expiration::Interval(Duration::from_millis(WAKE_INTERVAL_MILLIS)))
                } else {
                    old(self)@.timer.alarm
                },
            ),
            outcome matches Err(e) ==> e.kind == StallErrorKind::Wake,
    {
        self.terminated.store(true, Ordering::Relaxed);
        self.terminating = true;
        let interval = Duration::from_millis(WAKE_INTERVAL_MILLIS);
        refusal(StallErrorKind::Wake, self.timer.set(Expiration::Interval(interval)))
    }

    /// Takes off the intake channel every frame that is there, without waiting
    /// for more.
    pub(crate) fn drain(&self) -> (frames: Vec<backtrace::BacktraceFrame>) {
        let mut frames: Vec<backtrace::BacktraceFrame> = Vec::new();
        while frames.len() < usize::MAX
            decreases usize::MAX - frames.len(),
        {
            let received = try_receive(&self.rx);
            if !gather(&mut frames, received) {
                break ;
            }
        }
        frames
    }

    /// The identity of the executor that owns the watchdog.
    pub fn id(&self) -> (id: usize)
        ensures
            id == self@.id,
    {
        self.id
    }

    /// The number of the signal that interrupts the monitored thread.
    pub fn signal(&self) -> (signal: u8)
        ensures
            signal == self@.signal,
    {
        self.signal
    }

    /// The policy.
    pub(crate) fn stall_handler(&self) -> (stall_handler: &Box<H>)
        ensures
            *stall_handler == self@.stall_handler,
    {
        &self.stall_handler
    }

    /// The timer, for the thread that waits on it.
    pub fn timer(&self) -> (timer: &Timer)
        ensures
            timer@ == self@.timer,
    {
        &self.timer
    }

    /// The deadline or wake-up that the timer holds, if any.
    pub fn alarm(&self) -> (alarm: Option<Expiration>)
        ensures
            alarm == self@.timer.alarm,
    {
        self.timer.alarm()
    }

    /// Whether shutdown has begun.
    pub fn is_terminating(&self) -> (terminating: bool)
        ensures
            terminating == self@.terminating,
    {
        self.terminating
    }

    /// The flag that tells the thread waiting on the timer to end.
    pub fn terminated(&self) -> (terminated: &Arc<AtomicBool>)
        ensures
            *terminated == self@.terminated,
    {
        &self.terminated
    }

    /// The producer's end of the intake channel, for the signal handler to
    /// push frames into. A handler must push without waiting.
    pub fn tx(&self) -> (tx: &crossbeam::channel::Sender<backtrace::BacktraceFrame>)
        ensures
            *tx == self@.tx,
    {
        &self.tx
    }
}

/// The span that the timer is set to for a quantum with the budget
/// `threshold`: the budget itself, or the shortest span there is where the
/// budget is empty.
pub open spec fn deadline_for(threshold: Duration) -> Duration {
    if threshold@ == 0 {
        Duration::nanosecond()
    } else {
        threshold
    }
}

/// The span that the timer is set to for a quantum is never empty, so a timer
/// that accepts it is armed, and it is the budget wherever the budget is not
/// empty.
pub proof fn lemma_deadline_is_positive(threshold: Duration)
    ensures
        deadline_for(threshold)@ > 0,
        threshold@ > 0 ==> deadline_for(threshold) == threshold,
{
    crate::time::lemma_nanosecond();
}

} // verus!
