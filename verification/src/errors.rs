//! The error kinds of the system. Every precondition failure is reported
//! as a distinct kind and aborts the whole operation before any value
//! movement; none is retryable by the system itself.

use vstd::prelude::*;

verus! {

/// Why an operation was rejected.
#[derive(Clone, Copy, PartialEq, Eq, Structural, Debug)]
pub enum DetoxError {
    /// The stake amount at creation was zero.
    InvalidStakeAmount,
    /// The daily usage limit at creation was zero.
    InvalidTimeLimit,
    /// The duration at creation was zero or above one year.
    InvalidDuration,
    /// A mutation was attempted on a goal already in a terminal state.
    GoalNotActive,
    /// A report was submitted after the goal's end time.
    GoalExpired,
    /// Finalization was attempted before the goal's end time.
    GoalNotExpired,
    /// The reporter is neither the staker nor the beneficiary.
    UnauthorizedReporter,
    /// A non-admin attempted an admin-only operation.
    UnauthorizedAuthority,
    /// The recipient and amount lists differ in length.
    MismatchedArrays,
}

} // verus!
