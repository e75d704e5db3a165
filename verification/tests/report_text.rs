use stall_detector::queue::TaskQueueHandle;
use stall_detector::report::StallDetection;
use stall_detector::text::compose_report;
use stall_detector::text::decimal_string;
use stall_detector::time::Duration;

fn captured_trace() -> backtrace::Backtrace {
    backtrace::Backtrace::new_unresolved()
}

#[test]
fn decimal_string_writes_digits() {
    assert_eq!(decimal_string(0), "0");
    assert_eq!(decimal_string(7), "7");
    assert_eq!(decimal_string(10), "10");
    assert_eq!(decimal_string(1234567890), "1234567890");
    assert_eq!(decimal_string(usize::MAX), format!("{}", usize::MAX));
}

#[test]
fn compose_report_joins_the_parts() {
    let line = compose_report(3, "default", "40ms", "60ms", "<trace>");
    assert_eq!(
        line,
        "[stall-detector -- executor 3] task queue default went over-budget: 40ms (budget: 60ms). Backtrace: <trace>"
    );
}

#[test]
fn detection_keeps_what_it_is_given() {
    let trace = captured_trace();
    let depth = trace.frames().len();
    assert!(depth > 0);
    let detection = StallDetection::new(
        7,
        TaskQueueHandle::new(2),
        "latency",
        trace,
        Duration::from_millis(60),
        Duration::from_millis(100),
    );
    assert_eq!(detection.executor(), 7);
    assert_eq!(detection.queue_handle(), TaskQueueHandle::new(2));
    assert_eq!(detection.queue_handle().index(), 2);
    assert_eq!(detection.queue_name(), "latency");
    assert_eq!(detection.trace().frames().len(), depth);
    assert_eq!(detection.budget(), Duration::from_millis(60));
    assert_eq!(detection.overage(), Duration::from_millis(40));
}

#[test]
fn detection_overage_is_zero_within_budget() {
    let detection = StallDetection::new(
        1,
        TaskQueueHandle::new(0),
        "default",
        captured_trace(),
        Duration::from_millis(60),
        Duration::from_millis(59),
    );
    assert_eq!(detection.overage(), Duration::zero());
}

#[test]
fn message_names_executor_queue_overage_budget_and_trace() {
    let trace = captured_trace();
    let printed = format!("{:#?}", trace);
    let detection = StallDetection::new(
        12,
        TaskQueueHandle::new(0),
        "default",
        trace,
        Duration::from_millis(60),
        Duration::new(0, 105_500_000),
    );
    let message = detection.message();
    let head = "[stall-detector -- executor 12] task queue default went over-budget: 45.5ms (budget: 60ms). Backtrace: ";
    assert!(message.starts_with(head));
    assert_eq!(&message[head.len()..], printed);
}

#[test]
fn message_formats_spans_as_std_does() {
    let detection = StallDetection::new(
        0,
        TaskQueueHandle::new(0),
        "q",
        captured_trace(),
        Duration::new(1, 500_000_000),
        Duration::new(1, 500_000_250),
    );
    let message = detection.message();
    let overage = format!("{:#?}", std::time::Duration::new(0, 250));
    let budget = format!("{:#?}", std::time::Duration::new(1, 500_000_000));
    assert!(message.contains(&format!("went over-budget: {} (budget: {}).", overage, budget)));
}
