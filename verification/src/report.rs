//! What the watchdog tells the policy once a stall is confirmed.

use vstd::prelude::*;
use crate::queue::TaskQueueHandle;
use crate::text::compose_report;
use crate::text::report_text;
use crate::time::debug_text;
use crate::time::duration_debug_text;
use crate::time::spec_saturating_sub;
use crate::time::Duration;
use crate::trace::trace_depth;
use crate::trace::trace_resolved;
use crate::trace::trace_text;

verus! {

/// One confirmed stall: a queue that was still running when its budget had
/// passed and the interrupt landed.
#[derive(Debug)]
pub struct StallDetection<'a> {
    executor: usize,
    queue_handle: TaskQueueHandle,
    queue_name: &'a str,
    trace: backtrace::Backtrace,
    budget: Duration,
    overage: Duration,
}

/// A stall report as the contracts speak of it.
pub struct StallDetectionView {
    /// The watchdog that saw the stall, by the identity of its executor.
    pub executor: usize,
    /// The queue that overran.
    pub queue_handle: TaskQueueHandle,
    /// The name of that queue.
    pub queue_name: Seq<char>,
    /// Where the queue was when it was interrupted.
    pub trace: backtrace::Backtrace,
    /// The time the queue was given: its expected runtime and the slack.
    pub budget: Duration,
    /// The time the queue ran beyond its budget.
    pub overage: Duration,
}

impl<'a> View for StallDetection<'a> {
    type V = StallDetectionView;

    closed spec fn view(&self) -> StallDetectionView {
        StallDetectionView {
            executor: self.executor,
            queue_handle: self.queue_handle,
            queue_name: self.queue_name@,
            trace: self.trace,
            budget: self.budget,
            overage: self.overage,
        }
    }
}

impl StallDetectionView {
    /// Whether the report is one that a guard may hand to the policy: it
    /// carries at least one frame, and its trace is resolved.
    pub open spec fn confirmed(&self) -> bool {
        &&& trace_depth(self.trace) > 0
        &&& trace_resolved(self.trace)
    }
}

impl<'a> StallDetection<'a> {
    /// The report of a queue that ran for `elapsed` against `budget`. The
    /// overage is what `elapsed` has beyond the budget, and nothing where the
    /// clock puts `elapsed` below it.
    pub fn new(
        executor: usize,
        queue_handle: TaskQueueHandle,
        queue_name: &'a str,
        trace: backtrace::Backtrace,
        budget: Duration,
        elapsed: Duration,
    ) -> (detection: StallDetection<'a>)
        ensures
            detection@.executor == executor,
            detection@.queue_handle == queue_handle,
            detection@.queue_name == queue_name@,
            detection@.trace == trace,
            detection@.budget == budget,
            detection@.overage.wf(),
            detection@.overage@ == spec_saturating_sub(elapsed@, budget@),
    {
        StallDetection {
            executor,
            queue_handle,
            queue_name,
            trace,
            budget,
            overage: elapsed.saturating_sub(budget),
        }
    }

    /// The identity of the executor whose watchdog saw the stall.
    pub fn executor(&self) -> (executor: usize)
        ensures
            executor == self@.executor,
    {
        self.executor
    }

    /// The queue that overran.
    pub fn queue_handle(&self) -> (queue_handle: TaskQueueHandle)
        ensures
            queue_handle == self@.queue_handle,
    {
        self.queue_handle
    }

    /// The name of the queue that overran.
    pub fn queue_name(&self) -> (queue_name: &'a str)
        ensures
            queue_name@ == self@.queue_name,
    {
        self.queue_name
    }

    /// Where the queue was when it was interrupted.
    pub fn trace(&self) -> (trace: &backtrace::Backtrace)
        ensures
            *trace == self@.trace,
    {
        &self.trace
    }

    /// The time the queue was given.
    pub fn budget(&self) -> (budget: Duration)
        ensures
            budget == self@.budget,
    {
        self.budget
    }

    /// The time the queue ran beyond its budget.
    pub fn overage(&self) -> (overage: Duration)
        ensures
            overage == self@.overage,
    {
        self.overage
    }

    /// The report as one line of text. All of it but the trace at its end is
    /// fixed by the report.
    pub fn message(&self) -> (text: String)
        ensures
            exists|trace: Seq<char>|
                text@ == #[trigger] report_text(
                    self@.executor as nat,
                    self@.queue_name,
                    duration_debug_text(self@.overage@),
                    duration_debug_text(self@.budget@),
                    trace,
                ),
    {
        let overage = debug_text(self.overage);
        let budget = debug_text(self.budget);
        let trace = trace_text(&self.trace);
        let text = compose_report(
            self.executor,
            self.queue_name,
            overage.as_str(),
            budget.as_str(),
            trace.as_str(),
        );
        assert(text@ == report_text(
            self@.executor as nat,
            self@.queue_name,
            duration_debug_text(self@.overage@),
            duration_debug_text(self@.budget@),
            trace@,
        ));
        text
    }
}

} // verus!
