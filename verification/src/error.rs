//! The failures an operation can report.

use vstd::prelude::*;

verus! {

/// Every failure is a typed, synchronous outcome handed back to the caller.
#[derive(Copy, Clone, Debug, PartialEq, Eq, PartialOrd, Ord, Structural)]
pub enum Error {
    NotAuthorized,
    PayrollNotFound,
    InsufficientBalance,
    PayrollAlreadyFunded,
    PayrollNotFunded,
    InvalidRecipients,
    PayrollCompleted,
    CircuitBreakerActive,
    StreamNotFound,
    StreamInactive,
    InvalidAmount,
    TooEarly,
}

impl Error {
    /// The numeric code under which the failure is reported on the ledger.
    pub open spec fn spec_code(self) -> u32 {
        match self {
            Error::NotAuthorized => 1,
            Error::PayrollNotFound => 2,
            Error::InsufficientBalance => 3,
            Error::PayrollAlreadyFunded => 4,
            Error::PayrollNotFunded => 5,
            Error::InvalidRecipients => 6,
            Error::PayrollCompleted => 7,
            Error::CircuitBreakerActive => 8,
            Error::StreamNotFound => 9,
            Error::StreamInactive => 10,
            Error::InvalidAmount => 11,
            Error::TooEarly => 12,
        }
    }

    /// Computes the numeric code of the failure.
    pub fn code(self) -> (c: u32)
        ensures
            c == self.spec_code(),
            1 <= c <= 12,
    {
        match self {
            Error::NotAuthorized => 1,
            Error::PayrollNotFound => 2,
            Error::InsufficientBalance => 3,
            Error::PayrollAlreadyFunded => 4,
            Error::PayrollNotFunded => 5,
            Error::InvalidRecipients => 6,
            Error::PayrollCompleted => 7,
            Error::CircuitBreakerActive => 8,
            Error::StreamNotFound => 9,
            Error::StreamInactive => 10,
            Error::InvalidAmount => 11,
            Error::TooEarly => 12,
        }
    }
}

} // verus!
