//! Error values of the identity and lifetime core.
//!
//! Stale-identifier and unsupported-backend failures are distinct values so a
//! caller can tell misuse of a dead identifier from a build-configuration
//! problem. Validation failures and out-of-memory reports travel to a
//! device's error sink instead of being returned, matching the fire-and-forget
//! style of the public API.

use vstd::prelude::*;

verus! {

/// The identifier's slot no longer holds the resource the identifier was
/// issued for: the resource was destroyed, and the slot may since have been
/// reused under a higher generation.
#[derive(Clone, Copy, Debug, PartialEq, Eq, Structural)]
pub struct StaleIdError;

/// The identifier's backend tag names a backend that this context was not
/// built with. This signals a build-configuration error, not a recoverable
/// runtime condition.
#[derive(Clone, Copy, Debug, PartialEq, Eq, Structural)]
pub struct UnsupportedBackendError;

/// An asynchronous buffer mapping did not complete successfully.
#[derive(Clone, Copy, Debug, PartialEq, Eq, Structural)]
pub struct BufferAsyncError;

/// A broken invariant inside the core itself; the process is expected to
/// terminate when one of these is observed.
#[derive(Clone, Copy, Debug, PartialEq, Eq, Structural)]
pub enum FatalError {
    /// A completion callback fired more than once for the same future.
    DoubleComplete,
    /// A consumed future was polled again.
    PollAfterConsume,
    /// A submitted command buffer or a resource it references was destroyed
    /// or in a state that forbids execution.
    InvalidSubmission,
    /// An identifier named a backend this context was not built with.
    UnsupportedBackend,
}

/// Why a descriptor or an operation was rejected by validation.
#[derive(Clone, Copy, Debug, PartialEq, Eq, Structural)]
pub enum ValidationCause {
    /// A buffer range reaches past the end of the underlying buffer.
    RangeOutOfBounds,
    /// The buffer's usage flags do not permit the requested operation.
    UsageMismatch,
    /// The buffer is not in the mapping state the operation needs.
    MapStateMismatch,
    /// More bind group layouts were supplied than a pipeline layout may hold.
    TooManyBindGroups,
    /// The operation named a resource that is no longer alive.
    StaleResource,
}

/// An error delivered to a device's error sink.
#[derive(Clone, Copy, Debug, PartialEq, Eq, Structural)]
pub enum Error {
    /// Resource exhaustion, distinguished so callers can tell it from logic
    /// errors.
    OutOfMemory,
    /// The backend rejected a descriptor or an operation.
    Validation(ValidationCause),
}

impl Error {
    /// A short, fixed description of the error.
    pub fn describe(&self) -> (r: &'static str)
    {
        match self {
            Error::OutOfMemory => "out of memory",
            Error::Validation(ValidationCause::RangeOutOfBounds) => {
                "buffer range out of bounds"
            },
            Error::Validation(ValidationCause::UsageMismatch) => "usage not permitted",
            Error::Validation(ValidationCause::MapStateMismatch) => "bad mapping state",
            Error::Validation(ValidationCause::TooManyBindGroups) => "too many bind groups",
            Error::Validation(ValidationCause::StaleResource) => "resource no longer alive",
        }
    }
}

} // verus!
