use vstd::prelude::*;

verus! {

/// The ways a tracker operation can fail.
#[derive(Clone, Copy, Debug, PartialEq, Eq, Structural)]
pub enum TrackerError {
    /// An operation that needs a recorded start moment was called on a
    /// tracker that has never been resumed in the current session.
    EmptyHistory,
    /// A transition was requested from the wrong run state: resuming a
    /// tracker that is already running, or pausing one that is already
    /// paused.
    InvalidState,
}

impl TrackerError {
    /// A short human-readable name for the error.
    pub fn describe(&self) -> (r: &'static str)
        ensures
            *self is EmptyHistory ==> r@ == "tracker was never started"@,
            *self is InvalidState ==> r@ == "tracker is already in the requested run state"@,
    {
        match self {
            TrackerError::EmptyHistory => "tracker was never started",
            TrackerError::InvalidState => "tracker is already in the requested run state",
        }
    }
}

} // verus!
