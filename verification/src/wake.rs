//! The no-op wake handle and the resumption context that wraps it.

use vstd::prelude::*;

verus! {

/// The no-op wake handle: a zero-sized, stateless capability standing for
/// the one process-wide descriptor. Its four behaviors — duplicate, signal
/// consuming, signal by reference, release — do nothing observable. It
/// exists only to satisfy the structural requirement that every progress
/// check receive a resumption signal; a driver that pairs with it must poll
/// unconditionally, since waking triggers nothing.
#[derive(Clone, Copy, PartialEq, Eq, Debug)]
pub struct NoopWaker;

impl NoopWaker {
    /// Duplicate the handle. Every handle stands for the same stateless
    /// singleton, so the duplicate equals the original. No side effects;
    /// never fails.
    pub fn duplicate(&self) -> (w: NoopWaker)
        ensures
            w == *self,
    {
        NoopWaker
    }

    /// Signal, consuming the handle: performs no action before discarding
    /// it. In particular it triggers no re-check, re-queueing or
    /// notification. Never fails.
    pub fn wake(self) {
    }

    /// Signal without consuming the handle: performs no action. Never fails.
    pub fn wake_by_ref(&self) {
    }

    /// Release the handle: performs no action; the underlying descriptor is
    /// process-wide and never torn down. Never fails.
    pub fn release(self) {
    }
}

/// Build the no-op wake handle from the process-wide descriptor. Duplication
/// of the result always yields that same logical instance.
pub fn noop_waker() -> (w: NoopWaker)
    ensures
        w == NoopWaker,
{
    NoopWaker
}

/// The resumption context handed to every progress check: wraps exactly one
/// wake handle and carries no other state.
pub struct ResumeContext {
    waker: NoopWaker,
}

impl ResumeContext {
    /// The wake handle this context wraps.
    pub closed spec fn spec_waker(self) -> NoopWaker {
        self.waker
    }

    /// Build a context wrapping the given wake handle.
    pub fn from_waker(w: NoopWaker) -> (cx: ResumeContext)
        ensures
            cx.spec_waker() == w,
    {
        ResumeContext { waker: w }
    }

    /// Borrow the wrapped wake handle, for a task that wants to signal from
    /// inside its progress check.
    pub fn waker(&self) -> (w: &NoopWaker)
        ensures
            *w == self.spec_waker(),
    {
        &self.waker
    }
}

} // verus!
