//! Stack traces, captured frame by frame and kept through `backtrace`.

use vstd::prelude::*;

verus! {

#[verifier::external_type_specification]
#[verifier::external_body]
pub struct ExBacktrace(backtrace::Backtrace);

#[verifier::external_type_specification]
#[verifier::external_body]
pub struct ExBacktraceFrame(backtrace::BacktraceFrame);

/// The address at which a frame was executing: what
/// `backtrace::BacktraceFrame::ip` returns. It stands for the frame wherever
/// the contracts say which frames a trace holds.
pub uninterp spec fn frame_address(frame: backtrace::BacktraceFrame) -> usize;

/// The frames that a trace holds, from the top of the stack down, each by its
/// address: what `backtrace::Backtrace::frames` hands out.
pub uninterp spec fn trace_frames(trace: backtrace::Backtrace) -> Seq<usize>;

/// Whether the symbols of every frame of a trace have been looked up: the
/// state in which `backtrace::Backtrace::resolve` leaves a trace.
pub uninterp spec fn trace_resolved(trace: backtrace::Backtrace) -> bool;

/// The number of frames that a trace holds.
pub open spec fn trace_depth(trace: backtrace::Backtrace) -> nat {
    trace_frames(trace).len()
}

/// The addresses of a sequence of frames, in the same order.
pub open spec fn addresses(frames: Seq<backtrace::BacktraceFrame>) -> Seq<usize> {
    frames.map_values(|frame: backtrace::BacktraceFrame| frame_address(frame))
}

/// `backtrace::Backtrace::from` on a vector of frames: the trace keeps the
/// frames it is given, all of them, in their order.
#[verifier::external_body]
pub(crate) fn trace_from_frames(frames: Vec<backtrace::BacktraceFrame>) -> (trace:
    backtrace::Backtrace)
    ensures
        trace_frames(trace) == frames@.map_values(
            |frame: backtrace::BacktraceFrame| frame_address(frame),
        ),
{
    backtrace::Backtrace::from(frames)
}

/// The length of `backtrace::Backtrace::frames`.
#[verifier::external_body]
pub(crate) fn frame_count(trace: &backtrace::Backtrace) -> (count: usize)
    ensures
        count == trace_frames(*trace).len(),
{
    trace.frames().len()
}

/// `backtrace::Backtrace::resolve`: looks up the symbols of each frame that
/// has none yet. Which symbols it finds depends on the running program. The
/// frames themselves stay where they are, and the trace is resolved.
#[verifier::external_body]
pub(crate) fn resolve_trace(trace: &mut backtrace::Backtrace)
    ensures
        trace_frames(*final(trace)) == trace_frames(*old(trace)),
        trace_resolved(*final(trace)),
{
    trace.resolve()
}

/// The text that `backtrace::Backtrace` prints of itself in its pretty
/// debugging form. It is made of the addresses of the frames and of the
/// symbols found for them, which this library does not look into, so nothing
/// is claimed of it.
#[verifier::external_body]
pub(crate) fn trace_text(trace: &backtrace::Backtrace) -> (text: String) {
    format!("{:#?}", trace)
}

} // verus!
