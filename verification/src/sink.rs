//! The per-device error sink.
//!
//! Validation and out-of-memory errors have no natural caller to return to —
//! the public API is fire-and-forget — so they are delivered to the sink of
//! the device that owns the failing resource. Every dependent resource
//! captures its device's sink when it is created, so errors route correctly
//! however the device handle travels afterwards. By default the sink treats
//! errors as fatal; a caller may switch it to capturing instead.

use vstd::prelude::*;

use crate::error::Error;

verus! {

/// What the sink does with an error it receives.
#[derive(Clone, Copy, Debug, PartialEq, Eq, Structural)]
pub enum ErrorHandling {
    /// The default handler: an uncaptured error is a fatal condition and the
    /// process is expected to terminate.
    Fatal,
    /// A caller-installed handler: errors are recorded and execution goes on.
    Record,
}

/// The shared, per-device receiver of validation and out-of-memory errors.
pub struct ErrorSink {
    pub(crate) handling: ErrorHandling,
    pub(crate) received: Vec<Error>,
    pub(crate) fatal_observed: bool,
}

impl ErrorSink {
    /// How the sink currently handles errors.
    pub open(crate) spec fn spec_handling(self) -> ErrorHandling {
        self.handling
    }

    /// Every error delivered so far, in delivery order.
    pub open(crate) spec fn spec_received(self) -> Seq<Error> {
        self.received@
    }

    /// Whether an error arrived while the handler treated errors as fatal.
    pub open(crate) spec fn spec_fatal_observed(self) -> bool {
        self.fatal_observed
    }

    /// A fresh sink with the default, fatal handler and nothing received.
    pub fn new() -> (r: ErrorSink)
        ensures
            r.spec_handling() == ErrorHandling::Fatal,
            r.spec_received() == Seq::<Error>::empty(),
            !r.spec_fatal_observed(),
    {
        ErrorSink { handling: ErrorHandling::Fatal, received: Vec::new(), fatal_observed: false }
    }

    /// Delivers one error: it is recorded, and if the handler is the default
    /// fatal one, the sink is marked so the process can be torn down.
    pub fn handle_error(&mut self, error: Error)
        ensures
            final(self).spec_received() == old(self).spec_received().push(error),
            final(self).spec_handling() == old(self).spec_handling(),
            final(self).spec_fatal_observed() == (old(self).spec_fatal_observed() || old(
                self,
            ).spec_handling() == ErrorHandling::Fatal),
    {
        self.received.push(error);
        match self.handling {
            ErrorHandling::Fatal => {
                self.fatal_observed = true;
            },
            ErrorHandling::Record => {
            },
        }
    }

    /// Replaces the handler, as a caller installing an uncaptured-error
    /// handler does.
    pub fn set_handling(&mut self, handling: ErrorHandling)
        ensures
            final(self).spec_handling() == handling,
            final(self).spec_received() == old(self).spec_received(),
            final(self).spec_fatal_observed() == old(self).spec_fatal_observed(),
    {
        self.handling = handling;
    }
}

} // verus!
