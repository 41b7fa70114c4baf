//! The asynchronous completion bridge.
//!
//! A backend finishes work (a buffer mapping, a device request) by invoking a
//! completion callback, possibly from a worker thread; cooperative code learns
//! of the result by polling. [`GpuFuture`] is the shared cell both sides talk
//! to. Its state machine keeps the two sides honest: after the first poll,
//! exactly one of "a waker is registered" or "a result is stored" holds;
//! completing twice is detected as a fatal, core-internal fault; and a future
//! abandoned while its operation is in flight asks for the operation to be
//! cancelled, after which a late completion callback is a harmless no-op.

use vstd::prelude::*;

use crate::error::FatalError;
use crate::id::ResourceId;

verus! {

/// A stand-in for a task waker: completing the future hands this token back
/// so the caller can wake the matching task exactly once.
#[derive(Clone, Copy, Debug, PartialEq, Eq, Structural)]
pub struct WakerToken {
    /// Identifies the task to wake.
    pub task: u64,
}

/// Where a future is in its life.
pub enum FutureState<T> {
    /// Never polled; no consumer is waiting on the cell yet (the underlying
    /// operation may already be registered with the backend).
    Unpolled,
    /// Polled at least once and still waiting; the stored waker is the one to
    /// wake on completion. A later poll replaces the waker.
    Pending(WakerToken),
    /// The producing side stored a result that no poll has claimed yet.
    Completed(T),
    /// A poll claimed the result; the future is finished.
    Consumed,
    /// The future was dropped before its result was claimed.
    Cancelled,
}

/// What completing a future from a given state does: the next state, and
/// either the waker to wake (if a consumer was waiting) or the fatal fault a
/// second completion signals.
pub open spec fn spec_complete<T>(s: FutureState<T>, v: T) -> (FutureState<T>, Result<
    Option<WakerToken>,
    FatalError,
>) {
    match s {
        FutureState::Unpolled => (FutureState::Completed(v), Ok(None)),
        FutureState::Pending(w) => (FutureState::Completed(v), Ok(Some(w))),
        FutureState::Completed(_) => (s, Err(FatalError::DoubleComplete)),
        FutureState::Consumed => (s, Err(FatalError::DoubleComplete)),
        FutureState::Cancelled => (s, Ok(None)),
    }
}

/// What polling with waker `w` does: the next state, and the result if one
/// was ready.
pub open spec fn spec_poll<T>(s: FutureState<T>, w: WakerToken) -> (FutureState<T>, Option<T>) {
    match s {
        FutureState::Unpolled => (FutureState::Pending(w), None),
        FutureState::Pending(_) => (FutureState::Pending(w), None),
        FutureState::Completed(v) => (FutureState::Consumed, Some(v)),
        FutureState::Consumed => (s, None),
        FutureState::Cancelled => (s, None),
    }
}

/// What dropping the future does: the next state, and the buffer whose
/// in-flight mapping must be cancelled, if the operation was still pending.
pub open spec fn spec_cancel<T>(s: FutureState<T>, buffer: ResourceId) -> (FutureState<T>, Option<
    ResourceId,
>) {
    match s {
        FutureState::Pending(_) => (FutureState::Cancelled, Some(buffer)),
        _ => (FutureState::Cancelled, None),
    }
}

/// The shared cell a buffer-mapping operation resolves through.
///
/// The producing side calls [`GpuFuture::complete`]; the consuming side calls
/// [`GpuFuture::poll`]; abandoning the future calls [`GpuFuture::cancel`].
pub struct GpuFuture<T> {
    buffer: ResourceId,
    size: u64,
    state: FutureState<T>,
}

impl<T> GpuFuture<T> {
    /// The buffer whose mapping this future reports on.
    pub closed spec fn buffer(self) -> ResourceId {
        self.buffer
    }

    /// The length of the range being mapped.
    pub closed spec fn size(self) -> u64 {
        self.size
    }

    /// The cell's current state.
    pub closed spec fn state(self) -> FutureState<T> {
        self.state
    }

    /// A fresh, unpolled future for a mapping of `size` bytes of `buffer`.
    pub fn new(buffer: ResourceId, size: u64) -> (r: GpuFuture<T>)
        ensures
            r.buffer() == buffer,
            r.size() == size,
            r.state() is Unpolled,
    {
        GpuFuture { buffer, size, state: FutureState::Unpolled }
    }

    /// The buffer and mapping length this future was created for.
    pub fn get_buffer_info(&self) -> (r: (ResourceId, u64))
        ensures
            r.0 == self.buffer(),
            r.1 == self.size(),
    {
        (self.buffer, self.size)
    }

    /// Whether the future was cancelled.
    pub fn is_cancelled(&self) -> (r: bool)
        ensures
            r == (self.state() is Cancelled),
    {
        match self.state {
            FutureState::Cancelled => true,
            _ => false,
        }
    }

    /// Whether the future may still be polled: it has neither delivered its
    /// result nor been cancelled.
    pub fn can_poll(&self) -> (r: bool)
        ensures
            r == (!(self.state() is Consumed) && !(self.state() is Cancelled)),
    {
        match self.state {
            FutureState::Consumed => false,
            FutureState::Cancelled => false,
            _ => true,
        }
    }

    /// Stores the operation's result, called by the backend's completion
    /// callback.
    ///
    /// If a consumer already polled, its waker is returned so it is woken
    /// exactly once. Completing a future that already holds or delivered a
    /// result is a fatal fault; completing a cancelled future is a no-op.
    pub fn complete(&mut self, value: T) -> (r: Result<Option<WakerToken>, FatalError>)
        ensures
            (final(self).state(), r) == spec_complete(old(self).state(), value),
            final(self).buffer() == old(self).buffer(),
            final(self).size() == old(self).size(),
    {
        match &self.state {
            FutureState::Unpolled => {
                self.state = FutureState::Completed(value);
                Ok(None)
            },
            FutureState::Pending(w) => {
                let woken = *w;
                self.state = FutureState::Completed(value);
                Ok(Some(woken))
            },
            FutureState::Completed(_) => Err(FatalError::DoubleComplete),
            FutureState::Consumed => Err(FatalError::DoubleComplete),
            FutureState::Cancelled => Ok(None),
        }
    }

    /// Polls the cell on behalf of the consumer task named by `waker`.
    ///
    /// Returns the result if one is stored, consuming it; otherwise registers
    /// (or replaces) the waker and stays pending. A consumed or cancelled
    /// future must not be polled again.
    pub fn poll(&mut self, waker: WakerToken) -> (r: Option<T>)
        requires
            !(old(self).state() is Consumed),
            !(old(self).state() is Cancelled),
        ensures
            (final(self).state(), r) == spec_poll(old(self).state(), waker),
            final(self).buffer() == old(self).buffer(),
            final(self).size() == old(self).size(),
    {
        let mut taken = FutureState::Pending(waker);
        core::mem::swap(&mut self.state, &mut taken);
        match taken {
            FutureState::Unpolled => None,
            FutureState::Pending(_) => None,
            FutureState::Completed(value) => {
                self.state = FutureState::Consumed;
                Some(value)
            },
            FutureState::Consumed => vstd::pervasive::unreached(),
            FutureState::Cancelled => vstd::pervasive::unreached(),
        }
    }

    /// Abandons the future, called when it is dropped.
    ///
    /// If the operation is still in flight — a consumer polled and no result
    /// arrived — the buffer it was mapping is returned so the caller can issue
    /// the unmap that cancels the operation. A late completion callback after
    /// this is a no-op.
    pub fn cancel(&mut self) -> (r: Option<ResourceId>)
        requires
            !(old(self).state() is Cancelled),
        ensures
            (final(self).state(), r) == spec_cancel(old(self).state(), old(self).buffer()),
            final(self).buffer() == old(self).buffer(),
            final(self).size() == old(self).size(),
    {
        let mut taken = FutureState::Cancelled;
        core::mem::swap(&mut self.state, &mut taken);
        match taken {
            FutureState::Pending(_) => Some(self.buffer),
            _ => None,
        }
    }
}

/// Completing a live future twice is detected: once a first completion has
/// been accepted, any further completion reports a fatal double-complete
/// fault and leaves the stored result alone. (A cancelled future is the one
/// exception: late completions there are deliberate no-ops.)
pub proof fn lemma_double_complete_fatal<T>(s: FutureState<T>, v1: T, v2: T)
    requires
        !(s is Cancelled),
        spec_complete(s, v1).1 is Ok,
    ensures
        spec_complete(spec_complete(s, v1).0, v2) == (
            spec_complete(s, v1).0,
            Result::<Option<WakerToken>, FatalError>::Err(FatalError::DoubleComplete),
        ),
{
}

/// Completing a future on which a consumer has polled and stored a waker
/// hands that waker back exactly once: the completion that stores the result
/// returns it, and every later completion is fatal and returns none.
pub proof fn lemma_complete_wakes_exactly_once<T>(s: FutureState<T>, w: WakerToken, v: T, v2: T)
    requires
        s == FutureState::<T>::Pending(w),
    ensures
        spec_complete(s, v) == (
            FutureState::<T>::Completed(v),
            Result::<Option<WakerToken>, FatalError>::Ok(Some(w)),
        ),
        spec_complete(spec_complete(s, v).0, v2).1 == Result::<
            Option<WakerToken>,
            FatalError,
        >::Err(FatalError::DoubleComplete),
{
}

/// Dropping an in-flight future cancels the mapping: the drop yields the
/// buffer to unmap, and a completion callback that fires afterwards neither
/// faults nor resolves anything — the cell stays cancelled and no waker is
/// returned.
pub proof fn lemma_cancel_then_complete_is_noop<T>(
    s: FutureState<T>,
    buffer: ResourceId,
    w: WakerToken,
    v: T,
)
    requires
        s == FutureState::<T>::Pending(w),
    ensures
        spec_cancel(s, buffer) == (FutureState::<T>::Cancelled, Some(buffer)),
        spec_complete(spec_cancel(s, buffer).0, v) == (
            FutureState::<T>::Cancelled,
            Result::<Option<WakerToken>, FatalError>::Ok(None),
        ),
{
}

} // verus!
