//! The intake channel: the bounded conduit through which the frames captured
//! in signal context reach the guard.
//!
//! The channel is a `crossbeam` channel. Its producer is the signal handler,
//! which runs whenever the interrupt lands, so what the channel holds at any
//! moment is not for this library to say.

use vstd::prelude::*;

verus! {

#[verifier::external_type_specification]
#[verifier::external_body]
#[verifier::reject_recursive_types(T)]
pub struct ExSender<T>(crossbeam::channel::Sender<T>);

#[verifier::external_type_specification]
#[verifier::external_body]
#[verifier::reject_recursive_types(T)]
pub struct ExReceiver<T>(crossbeam::channel::Receiver<T>);

/// The largest capacity that a channel is made with here. `bounded` refuses
/// capacities too large to index; this bound is far below that on every
/// platform.
pub const MAX_CAPACITY: usize = 0x1_0000;

/// The number of frames that the channel behind a receiver was made to hold:
/// what `crossbeam::channel::Receiver::capacity` reports of a bounded channel.
pub uninterp spec fn intake_capacity(
    receiver: crossbeam::channel::Receiver<backtrace::BacktraceFrame>,
) -> nat;

/// `crossbeam::channel::bounded`: both ends of a new channel that holds up to
/// `capacity` frames.
#[verifier::external_body]
pub(crate) fn frame_channel(capacity: usize) -> (ends: (
    crossbeam::channel::Sender<backtrace::BacktraceFrame>,
    crossbeam::channel::Receiver<backtrace::BacktraceFrame>,
))
    requires
        capacity <= MAX_CAPACITY,
    ensures
        intake_capacity(ends.1) == capacity,
{
    crossbeam::channel::bounded(capacity)
}

/// `crossbeam::channel::Receiver::try_recv`: takes a frame off the channel if
/// one is there, and never waits. Whether one is there depends on what the
/// producer has done, so nothing is claimed of the result.
#[verifier::external_body]
pub(crate) fn try_receive(
    receiver: &crossbeam::channel::Receiver<backtrace::BacktraceFrame>,
) -> (frame: Option<backtrace::BacktraceFrame>) {
    receiver.try_recv().ok()
}

/// Puts what an attempt to receive has brought onto the frames gathered so
/// far, and says whether to try again: a frame is appended and there may be
/// more; without one the channel was empty and the gathering is over.
pub fn gather(
    frames: &mut Vec<backtrace::BacktraceFrame>,
    received: Option<backtrace::BacktraceFrame>,
) -> (more: bool)
    ensures
        more == received is Some,
        match received {
            Some(frame) => final(frames)@ == old(frames)@.push(frame),
            None => final(frames)@ == old(frames)@,
        },
{
    match received {
        Some(frame) => {
            frames.push(frame);
            true
        },
        None => false,
    }
}

} // verus!
