//! Spans of time with nanosecond resolution, and the clock they are read from.

use vstd::prelude::*;

verus! {

/// Nanoseconds in one second.
pub const NANOS_PER_SEC: u32 = 1_000_000_000;

/// Nanoseconds in one millisecond.
pub const NANOS_PER_MILLI: u32 = 1_000_000;

/// Milliseconds in one second.
pub const MILLIS_PER_SEC: u64 = 1_000;

/// The longest representable span, in nanoseconds.
pub open spec fn max_nanos() -> nat {
    (u64::MAX * NANOS_PER_SEC + (NANOS_PER_SEC - 1)) as nat
}

/// A span of time: whole seconds and a sub-second part counted in nanoseconds.
///
/// Its view is the total number of nanoseconds. The sub-second part of every
/// value is below one second, so two spans are equal exactly when their views
/// are.
#[derive(Clone, Copy, Debug, PartialEq, Eq, Structural, Hash)]
pub struct Duration {
    secs: u64,
    nanos: u32,
}

impl View for Duration {
    type V = nat;

    closed spec fn view(&self) -> nat {
        (self.secs * NANOS_PER_SEC + self.nanos) as nat
    }
}

impl Duration {
    /// Whether the sub-second part is below one second, as it is in every
    /// value that executable code can hold.
    #[verifier::type_invariant]
    pub closed spec fn wf(&self) -> bool {
        self.nanos < NANOS_PER_SEC
    }

    /// The whole seconds of the span.
    pub closed spec fn spec_secs(&self) -> u64 {
        self.secs
    }

    /// The part of the span below one second, in nanoseconds.
    pub closed spec fn spec_subsec_nanos(&self) -> u32 {
        self.nanos
    }

    /// A span of `secs` seconds and `nanos` nanoseconds. Nanoseconds beyond one
    /// second carry over into the seconds.
    pub fn new(secs: u64, nanos: u32) -> (d: Duration)
        requires
            secs + nanos / NANOS_PER_SEC <= u64::MAX,
        ensures
            d.wf(),
            d@ == secs * NANOS_PER_SEC + nanos,
    {
        let carry: u32 = nanos / NANOS_PER_SEC;
        let rest: u32 = nanos % NANOS_PER_SEC;
        Duration { secs: secs + carry as u64, nanos: rest }
    }

    /// The shortest span that is not empty: one nanosecond.
    pub closed spec fn spec_nanosecond() -> Duration {
        Duration { secs: 0, nanos: 1 }
    }

    /// The shortest span that is not empty: one nanosecond.
    #[verifier::when_used_as_spec(spec_nanosecond)]
    pub fn nanosecond() -> (d: Duration)
        ensures
            d == Duration::spec_nanosecond(),
            d.wf(),
            d@ == 1,
    {
        Duration { secs: 0, nanos: 1 }
    }

    /// Whether the span is empty.
    pub fn is_zero(&self) -> (empty: bool)
        ensures
            empty == (self@ == 0),
    {
        self.secs == 0 && self.nanos == 0
    }

    /// The empty span.
    pub fn zero() -> (d: Duration)
        ensures
            d.wf(),
            d@ == 0,
    {
        Duration { secs: 0, nanos: 0 }
    }

    /// The longest span.
    pub fn max_value() -> (d: Duration)
        ensures
            d.wf(),
            d@ == max_nanos(),
    {
        Duration { secs: u64::MAX, nanos: NANOS_PER_SEC - 1 }
    }

    /// A span of whole seconds.
    pub fn from_secs(secs: u64) -> (d: Duration)
        ensures
            d.wf(),
            d@ == secs * NANOS_PER_SEC,
    {
        Duration { secs, nanos: 0 }
    }

    /// The span of so many whole milliseconds.
    pub closed spec fn spec_from_millis(millis: u64) -> Duration {
        Duration {
            secs: millis / MILLIS_PER_SEC,
            nanos: ((millis % MILLIS_PER_SEC) * NANOS_PER_MILLI) as u32,
        }
    }

    /// A span of whole milliseconds.
    #[verifier::when_used_as_spec(spec_from_millis)]
    pub fn from_millis(millis: u64) -> (d: Duration)
        ensures
            d == Duration::spec_from_millis(millis),
            d.wf(),
            d@ == millis * NANOS_PER_MILLI,
    {
        let secs: u64 = millis / MILLIS_PER_SEC;
        let rest: u32 = (millis % MILLIS_PER_SEC) as u32;
        Duration { secs, nanos: rest * NANOS_PER_MILLI }
    }

    /// The whole seconds of the span.
    pub fn as_secs(&self) -> (secs: u64)
        ensures
            secs == self@ / (NANOS_PER_SEC as nat),
            secs == self.spec_secs(),
    {
        proof {
            use_type_invariant(self);
        }
        self.secs
    }

    /// The part of the span below one second, in nanoseconds.
    pub fn subsec_nanos(&self) -> (nanos: u32)
        ensures
            nanos == self@ % (NANOS_PER_SEC as nat),
            nanos == self.spec_subsec_nanos(),
            nanos < NANOS_PER_SEC,
    {
        proof {
            use_type_invariant(self);
        }
        self.nanos
    }

    /// The span in nanoseconds.
    pub fn as_nanos(&self) -> (nanos: u128)
        ensures
            nanos == self@,
            nanos <= max_nanos(),
    {
        proof {
            use_type_invariant(self);
        }
        let whole: u128 = self.secs as u128 * 1_000_000_000u128;
        whole + self.nanos as u128
    }

    /// The span in whole milliseconds, rounded down.
    pub fn as_millis(&self) -> (millis: u128)
        ensures
            millis == self@ / (NANOS_PER_MILLI as nat),
    {
        self.as_nanos() / NANOS_PER_MILLI as u128
    }

    /// The sum of two spans, or the longest span where the sum is beyond it.
    pub fn saturating_add(self, rhs: Duration) -> (sum: Duration)
        ensures
            sum.wf(),
            sum@ == spec_saturating_add(self@, rhs@),
            sum@ >= self@,
            sum@ >= rhs@,
    {
        let total: u128 = self.as_nanos() + rhs.as_nanos();
        Duration::from_nanos(total)
    }

    /// The span by which `self` is longer than `rhs`, or the empty span where
    /// it is not longer.
    pub fn saturating_sub(self, rhs: Duration) -> (diff: Duration)
        ensures
            diff.wf(),
            diff@ == spec_saturating_sub(self@, rhs@),
            diff@ <= self@,
    {
        let a: u128 = self.as_nanos();
        let b: u128 = rhs.as_nanos();
        if a <= b {
            Duration::zero()
        } else {
            Duration::from_nanos(a - b)
        }
    }

    /// The longer of two spans.
    pub fn max(self, other: Duration) -> (longer: Duration)
        ensures
            longer.wf(),
            longer@ == vstd::math::max(self@ as int, other@ as int),
            longer == self || longer == other,
    {
        proof {
            use_type_invariant(self);
            use_type_invariant(other);
        }
        if other.as_nanos() > self.as_nanos() {
            other
        } else {
            self
        }
    }

    /// The span of `total` nanoseconds, cut off at the longest span.
    pub fn from_nanos(total: u128) -> (d: Duration)
        ensures
            d.wf(),
            d@ == vstd::math::min(total as int, max_nanos() as int),
    {
        let secs: u128 = total / 1_000_000_000u128;
        let rest: u128 = total % 1_000_000_000u128;
        assert(total == secs * 1_000_000_000 + rest);
        if secs > u64::MAX as u128 {
            Duration::max_value()
        } else {
            Duration { secs: secs as u64, nanos: rest as u32 }
        }
    }
}

#[verifier::external_type_specification]
#[verifier::external_body]
pub struct ExInstant(std::time::Instant);

/// Reads the monotonic clock through `std::time::Instant::elapsed`: the time
/// that has passed since `start`. The answer depends on when the call is made,
/// so nothing is claimed of it beyond its being a span like any other
/// (`Duration::subsec_nanos` of std stays below one second).
#[verifier::external_body]
pub(crate) fn elapsed_since(start: &std::time::Instant) -> (elapsed: Duration)
    ensures
        elapsed.wf(),
{
    let passed = start.elapsed();
    Duration { secs: passed.as_secs(), nanos: passed.subsec_nanos() }
}

/// The text that `std::time::Duration` of so many nanoseconds prints of itself
/// in its debugging form, such as `55ms` or `1.5s`.
pub uninterp spec fn duration_debug_text(nanos: nat) -> Seq<char>;

/// Formats the same span of `std::time::Duration` in its debugging form. The
/// text is a function of the span alone.
#[verifier::external_body]
pub(crate) fn debug_text(span: Duration) -> (text: String)
    ensures
        text@ == duration_debug_text(span@),
{
    format!("{:#?}", std::time::Duration::new(span.as_secs(), span.subsec_nanos()))
}

/// The sum of two spans in nanoseconds, cut off at the longest span.
pub open spec fn spec_saturating_add(a: nat, b: nat) -> nat {
    if a + b <= max_nanos() {
        a + b
    } else {
        max_nanos()
    }
}

/// The amount by which `a` exceeds `b`, zero where it does not.
pub open spec fn spec_saturating_sub(a: nat, b: nat) -> nat {
    if a >= b {
        (a - b) as nat
    } else {
        0
    }
}

/// A quantum that ends within its budget has no overage, and one that ends
/// beyond it has exactly the time beyond as its overage.
pub proof fn lemma_overage(elapsed: nat, budget: nat)
    ensures
        elapsed <= budget <==> spec_saturating_sub(elapsed, budget) == 0,
        elapsed > budget ==> spec_saturating_sub(elapsed, budget) + budget == elapsed,
{
}

/// A budget is never shorter than the expected runtime it was made from, nor
/// than the slack, and it is their exact sum unless that is beyond the longest
/// span.
pub proof fn lemma_budget(runtime: nat, slack: nat)
    requires
        runtime <= max_nanos(),
        slack <= max_nanos(),
    ensures
        spec_saturating_add(runtime, slack) >= runtime,
        spec_saturating_add(runtime, slack) >= slack,
        spec_saturating_add(runtime, slack) <= max_nanos(),
        runtime + slack <= max_nanos() ==> spec_saturating_add(runtime, slack) == runtime + slack,
{
}

/// A span of whole milliseconds is well-formed and holds a million
/// nanoseconds for each of them.
pub proof fn lemma_from_millis(millis: u64)
    ensures
        Duration::from_millis(millis).wf(),
        Duration::from_millis(millis)@ == millis * NANOS_PER_MILLI,
{
}

/// A nanosecond is well-formed and holds one nanosecond.
pub proof fn lemma_nanosecond()
    ensures
        Duration::nanosecond().wf(),
        Duration::nanosecond()@ == 1,
{
}

/// Two well-formed spans with the same number of nanoseconds are the same span.
pub proof fn lemma_view_injective(a: Duration, b: Duration)
    requires
        a.wf(),
        b.wf(),
        a@ == b@,
    ensures
        a == b,
{
}

} // verus!
