use stall_detector::detector::StallDetector;
use stall_detector::detector::FRAME_CAPACITY;
use stall_detector::error::refusal;
use stall_detector::error::StallErrorKind;
use stall_detector::policy::DefaultStallDetectionHandler;
use stall_detector::policy::StallDetectionHandler;
use stall_detector::time::Duration;
use stall_detector::timer::alarm_once_set;
use stall_detector::timer::alarm_once_unset;
use stall_detector::timer::Expiration;
use stall_detector::timer::Timer;
use stall_detector::watch::after_wake;
use stall_detector::watch::WatchStep;

fn detector(id: usize) -> StallDetector<DefaultStallDetectionHandler> {
    StallDetector::new(id, Box::new(DefaultStallDetectionHandler {})).unwrap()
}

fn kernel_alarm(
    detector: &StallDetector<DefaultStallDetectionHandler>,
) -> Option<nix::sys::timerfd::Expiration> {
    detector.timer().fd().get().unwrap()
}

#[test]
fn new_watchdog_is_idle() {
    let d = detector(5);
    assert_eq!(d.id(), 5);
    assert_eq!(d.signal(), nix::libc::SIGUSR1 as u8);
    assert_eq!(d.alarm(), None);
    assert!(!d.is_terminating());
    assert!(!d.terminated().load(std::sync::atomic::Ordering::Relaxed));
    assert_eq!(kernel_alarm(&d), None);
}

#[test]
fn default_signal_is_one_of_the_three() {
    let signal = detector(0).signal();
    assert!(signal == 10 || signal == 16 || signal == 30);
}

#[test]
fn policy_may_be_boxed_as_a_trait_object() {
    let policy: Box<dyn StallDetectionHandler> = Box::new(DefaultStallDetectionHandler {});
    let mut d = StallDetector::new(8, policy).unwrap();
    assert_eq!(d.id(), 8);
    assert_eq!(d.signal(), nix::libc::SIGUSR1 as u8);
    assert!(d.arm(Duration::from_secs(9)).is_ok());
    assert_eq!(d.alarm(), Some(Expiration::OneShot(Duration::from_secs(9))));
    assert!(d.disarm().is_ok());
}

#[test]
fn intake_channel_holds_1024_frames() {
    let d = detector(0);
    assert_eq!(FRAME_CAPACITY, 1024);
    assert_eq!(d.tx().capacity(), Some(1024));
    assert!(d.tx().is_empty());
}

#[test]
fn from_parts_keeps_its_parts() {
    let timer = Timer::new().unwrap();
    assert_eq!(timer.alarm(), None);
    let d = StallDetector::from_parts(9, Box::new(DefaultStallDetectionHandler {}), 12, timer);
    assert_eq!(d.id(), 9);
    assert_eq!(d.signal(), 12);
    assert_eq!(d.alarm(), None);
    assert!(!d.is_terminating());
    assert_eq!(d.tx().capacity(), Some(FRAME_CAPACITY));
}

#[test]
fn arm_sets_a_one_shot_deadline() {
    let mut d = detector(0);
    assert!(d.arm(Duration::from_secs(30)).is_ok());
    assert_eq!(d.alarm(), Some(Expiration::OneShot(Duration::from_secs(30))));
    match kernel_alarm(&d) {
        Some(nix::sys::timerfd::Expiration::OneShot(left)) => {
            let left = std::time::Duration::from(left);
            assert!(left <= std::time::Duration::from_secs(30));
            assert!(left > std::time::Duration::from_secs(29));
        }
        other => panic!("unexpected alarm {:?}", other),
    }
}

#[test]
fn arm_supersedes_an_earlier_deadline() {
    let mut d = detector(0);
    assert!(d.arm(Duration::from_secs(3_600)).is_ok());
    assert!(d.arm(Duration::from_secs(20)).is_ok());
    assert_eq!(d.alarm(), Some(Expiration::OneShot(Duration::from_secs(20))));
    match kernel_alarm(&d) {
        Some(nix::sys::timerfd::Expiration::OneShot(left)) => {
            assert!(std::time::Duration::from(left) <= std::time::Duration::from_secs(20));
        }
        other => panic!("unexpected alarm {:?}", other),
    }
}

#[test]
fn arm_refused_leaves_the_watchdog_as_it_was() {
    let mut d = detector(0);
    assert!(d.arm(Duration::from_secs(40)).is_ok());
    let refused = d.arm(Duration::from_secs(u64::MAX));
    let error = refused.unwrap_err();
    assert_eq!(error.kind(), StallErrorKind::Arm);
    assert_eq!(error.errno(), nix::errno::Errno::EINVAL);
    assert_eq!(d.alarm(), Some(Expiration::OneShot(Duration::from_secs(40))));
    assert!(kernel_alarm(&d).is_some());
}

#[test]
fn disarm_removes_the_deadline() {
    let mut d = detector(0);
    assert!(d.arm(Duration::from_secs(30)).is_ok());
    assert!(d.disarm().is_ok());
    assert_eq!(d.alarm(), None);
    assert_eq!(kernel_alarm(&d), None);
}

#[test]
fn disarm_twice_is_as_disarm_once() {
    let mut d = detector(0);
    assert!(d.disarm().is_ok());
    assert_eq!(d.alarm(), None);
    assert!(d.arm(Duration::from_secs(30)).is_ok());
    assert!(d.disarm().is_ok());
    assert!(d.disarm().is_ok());
    assert_eq!(d.alarm(), None);
    assert_eq!(kernel_alarm(&d), None);
}

#[test]
fn shutdown_raises_the_flag_and_wakes_the_timer() {
    let mut d = detector(0);
    assert!(d.shutdown().is_ok());
    assert!(d.is_terminating());
    assert!(d.terminated().load(std::sync::atomic::Ordering::Relaxed));
    assert_eq!(d.alarm(), Some(Expiration::Interval(Duration::from_millis(1))));
    assert!(d.timer().fd().wait().is_ok());
    assert!(d.timer().fd().wait().is_ok());
}

#[test]
fn shutdown_replaces_a_pending_deadline() {
    let mut d = detector(0);
    assert!(d.arm(Duration::from_secs(3_600)).is_ok());
    assert!(d.shutdown().is_ok());
    assert_eq!(d.alarm(), Some(Expiration::Interval(Duration::from_millis(1))));
    assert!(d.timer().fd().wait().is_ok());
}

#[test]
fn record_follows_the_answer_of_the_timer() {
    let held = Some(Expiration::OneShot(Duration::from_secs(1)));
    let asked = Expiration::Interval(Duration::from_millis(1));
    let refused: Result<(), nix::errno::Errno> = Err(nix::errno::Errno::EINVAL);
    assert_eq!(alarm_once_set(held, asked, &Ok(())), Some(asked));
    assert_eq!(alarm_once_set(None, asked, &Ok(())), Some(asked));
    assert_eq!(alarm_once_set(held, asked, &refused), held);
    assert_eq!(alarm_once_set(None, asked, &refused), None);
    let empty = Expiration::OneShot(Duration::zero());
    assert_eq!(alarm_once_set(held, empty, &Ok(())), None);
    assert_eq!(alarm_once_set(held, Expiration::Interval(Duration::zero()), &Ok(())), None);
    assert_eq!(alarm_once_set(held, empty, &refused), held);
    assert_eq!(alarm_once_unset(held, &Ok(())), None);
    assert_eq!(alarm_once_unset(None, &Ok(())), None);
    assert_eq!(alarm_once_unset(held, &refused), held);
}

#[test]
fn timer_comes_of_what_was_created() {
    let created = nix::sys::timerfd::TimerFd::new(
        nix::sys::timerfd::ClockId::CLOCK_MONOTONIC,
        nix::sys::timerfd::TimerFlags::empty(),
    );
    let timer = Timer::from_created(created).unwrap();
    assert_eq!(timer.alarm(), None);
    assert_eq!(timer.fd().get().unwrap(), None);
    match Timer::from_created(Err(nix::errno::Errno::EMFILE)) {
        Ok(_) => panic!("no timer was granted"),
        Err(errno) => assert_eq!(errno, nix::errno::Errno::EMFILE),
    }
}

#[test]
fn expiration_has_a_span() {
    assert_eq!(Expiration::OneShot(Duration::from_millis(3)).span(), Duration::from_millis(3));
    assert_eq!(Expiration::Interval(Duration::from_secs(2)).span(), Duration::from_secs(2));
}

#[test]
fn alarm_of_no_length_drops_the_alarm() {
    let mut timer = Timer::new().unwrap();
    assert!(timer.set(Expiration::OneShot(Duration::from_secs(50))).is_ok());
    assert!(timer.fd().get().unwrap().is_some());
    assert!(timer.set(Expiration::OneShot(Duration::zero())).is_ok());
    assert_eq!(timer.alarm(), None);
    assert_eq!(timer.fd().get().unwrap(), None);
    assert!(timer.set(Expiration::Interval(Duration::from_secs(50))).is_ok());
    assert!(timer.set(Expiration::Interval(Duration::zero())).is_ok());
    assert_eq!(timer.alarm(), None);
    assert_eq!(timer.fd().get().unwrap(), None);
}

#[test]
fn empty_threshold_is_armed_as_a_nanosecond() {
    let mut d = detector(0);
    assert!(d.arm(Duration::zero()).is_ok());
    assert_eq!(d.alarm(), Some(Expiration::OneShot(Duration::nanosecond())));
    assert!(d.timer().fd().wait().is_ok());
}

#[test]
fn refusal_keeps_the_reason() {
    let granted: Result<u8, nix::errno::Errno> = Ok(7);
    assert_eq!(refusal(StallErrorKind::Arm, granted).unwrap(), 7);
    let refused: Result<u8, nix::errno::Errno> = Err(nix::errno::Errno::EBADF);
    let error = refusal(StallErrorKind::Disarm, refused).unwrap_err();
    assert_eq!(error.kind(), StallErrorKind::Disarm);
    assert_eq!(error.errno(), nix::errno::Errno::EBADF);
    let refused: Result<(), nix::errno::Errno> = Err(nix::errno::Errno::EMFILE);
    let error = refusal(StallErrorKind::CreateTimer, refused).unwrap_err();
    assert_eq!(error.kind(), StallErrorKind::CreateTimer);
    assert_eq!(error.errno(), nix::errno::Errno::EMFILE);
    let refused: Result<(), nix::errno::Errno> = Err(nix::errno::Errno::EINVAL);
    assert_eq!(refusal(StallErrorKind::Wake, refused).unwrap_err().kind(), StallErrorKind::Wake);
}

#[test]
fn timer_set_and_unset_keep_the_record() {
    let mut timer = Timer::new().unwrap();
    assert!(timer.set(Expiration::Interval(Duration::from_secs(7))).is_ok());
    assert_eq!(timer.alarm(), Some(Expiration::Interval(Duration::from_secs(7))));
    match timer.fd().get().unwrap() {
        Some(nix::sys::timerfd::Expiration::IntervalDelayed(_, every)) => {
            assert_eq!(std::time::Duration::from(every), std::time::Duration::from_secs(7));
        }
        Some(nix::sys::timerfd::Expiration::Interval(every)) => {
            assert_eq!(std::time::Duration::from(every), std::time::Duration::from_secs(7));
        }
        other => panic!("unexpected alarm {:?}", other),
    }
    assert_eq!(
        timer.set(Expiration::OneShot(Duration::from_secs(u64::MAX))),
        Err(nix::errno::Errno::EINVAL)
    );
    assert_eq!(timer.alarm(), Some(Expiration::Interval(Duration::from_secs(7))));
    assert!(timer.unset().is_ok());
    assert_eq!(timer.alarm(), None);
    assert_eq!(timer.fd().get().unwrap(), None);
}

#[test]
fn one_shot_deadline_fires_once() {
    let mut d = detector(0);
    let armed = std::time::Instant::now();
    assert!(d.arm(Duration::from_millis(20)).is_ok());
    assert!(d.timer().fd().wait().is_ok());
    assert!(armed.elapsed() >= std::time::Duration::from_millis(20));
    assert_eq!(kernel_alarm(&d), None);
}

#[test]
fn waiting_thread_delivers_until_terminated() {
    assert_eq!(after_wake(true, false), WatchStep::Deliver);
    assert_eq!(after_wake(true, true), WatchStep::Stop);
    assert_eq!(after_wake(false, false), WatchStep::Stop);
    assert_eq!(after_wake(false, true), WatchStep::Stop);
}
