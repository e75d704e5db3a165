//! The monotonic timer behind the watchdog.
//!
//! The kernel object is reached through `nix`. What the watchdog knows of it is
//! the alarm it last had accepted: a timer holds one alarm at most, and a new
//! one replaces the old.

use vstd::prelude::*;
use std::sync::Arc;
use crate::time::Duration;

verus! {

#[verifier::external_type_specification]
#[verifier::external_body]
pub struct ExTimerFd(nix::sys::timerfd::TimerFd);

#[verifier::external_type_specification]
#[verifier::external_body]
pub struct ExErrno(nix::errno::Errno);

/// When an alarm goes off.
#[derive(Clone, Copy, Debug, PartialEq, Eq, Structural)]
pub enum Expiration {
    /// Once, after the given span.
    OneShot(Duration),
    /// After the given span, and then again every time it has passed.
    Interval(Duration),
}

impl Expiration {
    /// The span after which the alarm goes off first.
    pub open spec fn spec_span(self) -> Duration {
        match self {
            Expiration::OneShot(span) => span,
            Expiration::Interval(span) => span,
        }
    }

    /// The span after which the alarm goes off first.
    #[verifier::when_used_as_spec(spec_span)]
    pub fn span(self) -> (span: Duration)
        ensures
            span == self.spec_span(),
    {
        match self {
            Expiration::OneShot(span) => span,
            Expiration::Interval(span) => span,
        }
    }
}

/// The alarm a timer holds once `requested` has been asked of it. Where the
/// timer did not accept, it is the one held before. Where it did, it is the
/// new one, unless its span is empty: to set an alarm of no length is to drop
/// the alarm.
pub open spec fn alarm_after_set(
    held: Option<Expiration>,
    requested: Expiration,
    accepted: bool,
) -> Option<Expiration> {
    if !accepted {
        held
    } else if requested.span()@ == 0 {
        None
    } else {
        Some(requested)
    }
}

/// The alarm a timer holds once it has been asked to drop its alarm: none where
/// the timer accepted, the one it held before where it did not.
pub open spec fn alarm_after_unset(held: Option<Expiration>, accepted: bool) -> Option<
    Expiration,
> {
    if accepted {
        None
    } else {
        held
    }
}

/// `nix::sys::timerfd::TimerFd::new` on the monotonic clock, without flags.
/// Whether the kernel grants a timer is its own decision, so nothing is claimed
/// of the result.
#[verifier::external_body]
pub(crate) fn create_timer() -> (timer: Result<nix::sys::timerfd::TimerFd, nix::errno::Errno>) {
    nix::sys::timerfd::TimerFd::new(
        nix::sys::timerfd::ClockId::CLOCK_MONOTONIC,
        nix::sys::timerfd::TimerFlags::empty(),
    )
}

/// `nix::sys::timerfd::TimerFd::set` with a relative expiration. The kernel
/// may refuse, so nothing is claimed of the result.
#[verifier::external_body]
pub(crate) fn set_timer(timer: &nix::sys::timerfd::TimerFd, expiration: Expiration) -> (outcome:
    Result<(), nix::errno::Errno>) {
    let flags = nix::sys::timerfd::TimerSetTimeFlags::empty();
    match expiration {
        Expiration::OneShot(d) => timer.set(
            nix::sys::timerfd::Expiration::OneShot(
                std::time::Duration::new(d.as_secs(), d.subsec_nanos()).into(),
            ),
            flags,
        ),
        Expiration::Interval(d) => timer.set(
            nix::sys::timerfd::Expiration::Interval(
                std::time::Duration::new(d.as_secs(), d.subsec_nanos()).into(),
            ),
            flags,
        ),
    }
}

/// `nix::sys::timerfd::TimerFd::unset`. The kernel may refuse, so nothing is
/// claimed of the result.
#[verifier::external_body]
pub(crate) fn unset_timer(timer: &nix::sys::timerfd::TimerFd) -> (outcome: Result<
    (),
    nix::errno::Errno,
>) {
    timer.unset()
}

/// The alarm to keep on record once the operating system has answered a
/// request to set `requested` on a timer that held `held`.
pub fn alarm_once_set(
    held: Option<Expiration>,
    requested: Expiration,
    outcome: &Result<(), nix::errno::Errno>,
) -> (alarm: Option<Expiration>)
    ensures
        alarm == alarm_after_set(held, requested, outcome is Ok),
{
    match outcome {
        Ok(_) => if requested.span().is_zero() {
            None
        } else {
            Some(requested)
        },
        Err(_) => held,
    }
}

/// The alarm to keep on record once the operating system has answered a
/// request to drop the alarm of a timer that held `held`.
pub fn alarm_once_unset(held: Option<Expiration>, outcome: &Result<(), nix::errno::Errno>) -> (alarm:
    Option<Expiration>)
    ensures
        alarm == alarm_after_unset(held, outcome is Ok),
{
    match outcome {
        Ok(_) => None,
        Err(_) => held,
    }
}

/// A timer together with the alarm it last accepted.
pub struct Timer {
    fd: Arc<nix::sys::timerfd::TimerFd>,
    alarm: Option<Expiration>,
}

/// A timer as the contracts speak of it.
pub struct TimerView {
    /// The kernel object, shared with the thread that waits on it.
    pub fd: Arc<nix::sys::timerfd::TimerFd>,
    /// The alarm that the timer last accepted and that has not been dropped
    /// since. Its span is not empty. A one-shot alarm stays on record after it
    /// has gone off.
    pub alarm: Option<Expiration>,
}

impl View for Timer {
    type V = TimerView;

    closed spec fn view(&self) -> TimerView {
        TimerView { fd: self.fd, alarm: self.alarm }
    }
}

impl Timer {
    /// A timer on the monotonic clock, with no alarm set, or the reason why
    /// the operating system granted none.
    pub fn new() -> (timer: Result<Timer, nix::errno::Errno>)
        ensures
            timer matches Ok(t) ==> t@.alarm is None,
    {
        Timer::from_created(create_timer())
    }

    /// The timer that comes of what the operating system answered when asked
    /// for one: the timer it granted, with no alarm set, or its refusal.
    pub fn from_created(
        created: Result<nix::sys::timerfd::TimerFd, nix::errno::Errno>,
    ) -> (timer: Result<Timer, nix::errno::Errno>)
        ensures
            match created {
                Ok(fd) => timer matches Ok(t) && *t@.fd == fd && t@.alarm is None,
                Err(errno) => timer matches Err(e) && e == errno,
            },
    {
        match created {
            Ok(fd) => Ok(Timer { fd: Arc::new(fd), alarm: None }),
            Err(errno) => Err(errno),
        }
    }

    /// Sets an alarm in place of the one the timer holds, if any. An alarm of
    /// no length drops the alarm instead. Where the operating system refuses,
    /// the timer is left as it was.
    pub fn set(&mut self, expiration: Expiration) -> (outcome: Result<(), nix::errno::Errno>)
        ensures
            final(self)@.fd == old(self)@.fd,
            final(self)@.alarm == alarm_after_set(old(self)@.alarm, expiration, outcome is Ok),
    {
        let outcome = set_timer(&self.fd, expiration);
        self.alarm = alarm_once_set(self.alarm, expiration, &outcome);
        outcome
    }

    /// Drops the alarm that the timer holds, if any. Where the operating
    /// system refuses, the timer is left as it was.
    pub fn unset(&mut self) -> (outcome: Result<(), nix::errno::Errno>)
        ensures
            final(self)@.fd == old(self)@.fd,
            final(self)@.alarm == alarm_after_unset(old(self)@.alarm, outcome is Ok),
    {
        let outcome = unset_timer(&self.fd);
        self.alarm = alarm_once_unset(self.alarm, &outcome);
        outcome
    }

    /// The alarm that the timer last accepted and that has not been dropped
    /// since.
    pub fn alarm(&self) -> (alarm: Option<Expiration>)
        ensures
            alarm == self@.alarm,
    {
        self.alarm
    }

    /// The kernel object, for the thread that waits on it.
    pub fn fd(&self) -> (fd: &Arc<nix::sys::timerfd::TimerFd>)
        ensures
            *fd == self@.fd,
    {
        &self.fd
    }
}

/// Setting an alarm that the timer accepts replaces whatever alarm it held:
/// nothing of an earlier deadline is left.
pub proof fn lemma_set_supersedes(
    held: Option<Expiration>,
    earlier: Expiration,
    later: Expiration,
)
    ensures
        alarm_after_set(alarm_after_set(held, earlier, true), later, true) == alarm_after_set(
            held,
            later,
            true,
        ),
        later.span()@ > 0 ==> alarm_after_set(alarm_after_set(held, earlier, true), later, true)
            == Some(later),
{
}

/// An alarm of no length, once accepted, leaves the timer as dropping its
/// alarm does.
pub proof fn lemma_empty_alarm_unsets(held: Option<Expiration>, requested: Expiration)
    requires
        requested.span()@ == 0,
    ensures
        alarm_after_set(held, requested, true) == alarm_after_unset(held, true),
{
}

/// Dropping the alarm twice leaves the timer as dropping it once does, whether
/// or not it held an alarm to begin with.
pub proof fn lemma_unset_idempotent(held: Option<Expiration>)
    ensures
        alarm_after_unset(alarm_after_unset(held, true), true) == alarm_after_unset(held, true),
        alarm_after_unset(None, true) == None::<Expiration>,
{
}

} // verus!
