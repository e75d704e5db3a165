//! What can go wrong between the watchdog and its timer.

use vstd::prelude::*;

verus! {

/// The step at which the timer refused.
#[derive(Clone, Copy, Debug, PartialEq, Eq, Structural)]
pub enum StallErrorKind {
    /// The timer could not be created: there is no watchdog.
    CreateTimer,
    /// The deadline of a quantum could not be set: the quantum would run
    /// unwatched.
    Arm,
    /// The deadline of a quantum could not be removed once the quantum had
    /// ended.
    Disarm,
    /// The timer could not be made to wake the watchdog thread for shutdown.
    Wake,
}

/// A refusal of the timer, with the step it came at and the reason the
/// operating system gave.
#[derive(Clone, Copy, Debug)]
pub struct StallError {
    pub kind: StallErrorKind,
    pub errno: nix::errno::Errno,
}

impl StallError {
    /// The error of the step `kind` that the operating system refused with
    /// `errno`.
    pub fn new(kind: StallErrorKind, errno: nix::errno::Errno) -> (error: StallError)
        ensures
            error.kind == kind,
            error.errno == errno,
    {
        StallError { kind, errno }
    }

    /// The step at which the timer refused.
    pub fn kind(&self) -> (kind: StallErrorKind)
        ensures
            kind == self.kind,
    {
        self.kind
    }

    /// The reason the operating system gave.
    pub fn errno(&self) -> (errno: nix::errno::Errno)
        ensures
            errno == self.errno,
    {
        self.errno
    }
}

/// Turns the answer of the operating system at the step `kind` into the
/// answer of the watchdog: what it granted stays as it is, and its refusal
/// becomes the error of that step, with the reason it gave.
pub fn refusal<T>(kind: StallErrorKind, outcome: Result<T, nix::errno::Errno>) -> (result: Result<
    T,
    StallError,
>)
    ensures
        match outcome {
            Ok(granted) => result == Ok::<T, StallError>(granted),
            Err(errno) => result matches Err(e) && e.kind == kind && e.errno == errno,
        },
{
    match outcome {
        Ok(granted) => Ok(granted),
        Err(errno) => Err(StallError::new(kind, errno)),
    }
}

} // verus!
