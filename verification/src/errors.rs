//! The error kinds a scheduling run can end with. Both are terminal: the
//! dispatch loop aborts as soon as either is raised.

use vstd::prelude::*;

verus! {

/// Why a scheduling operation failed.
#[derive(Debug, Clone, Copy, PartialEq, Eq, Structural)]
pub enum SchedError {
    /// A work unit was asked to run for a zero-length tick interval.
    InvalidInterval,
    /// The dispatch loop tried to pop a unit from an empty queue.
    EmptyQueue,
}

impl SchedError {
    /// The human-readable message for this error kind.
    pub open spec fn message_spec(self) -> Seq<char> {
        match self {
            SchedError::InvalidInterval => "invalid scheduling interval"@,
            SchedError::EmptyQueue => "unexpectedly empty threads queue"@,
        }
    }

    /// Renders the error as a fixed message.
    pub fn message(&self) -> (r: &'static str)
        ensures
            r@ == self.message_spec(),
    {
        match self {
            SchedError::InvalidInterval => "invalid scheduling interval",
            SchedError::EmptyQueue => "unexpectedly empty threads queue",
        }
    }
}

} // verus!
