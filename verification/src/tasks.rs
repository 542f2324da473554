//! Concrete tasks: the simplest state machines the driver can be handed.

use vstd::prelude::*;

use crate::task::completes;
use crate::task::drives_to;
use crate::task::state_after;
use crate::task::Progress;
use crate::task::Task;
use crate::wake::ResumeContext;

verus! {

/// A task that reports done on its very first progress check, carrying the
/// stored value. Checked again after that, it reports not-done forever: the
/// value has been handed out and the machine has nothing further to do.
pub struct Ready<T> {
    /// The value still to be reported, or nothing once it has been handed
    /// out.
    pub value: Option<T>,
}

impl<T> Ready<T> {
    /// Build a task that reports done with `value` on its first check.
    pub fn new(value: T) -> (t: Ready<T>)
        ensures
            t.value == Some(value),
    {
        Ready { value: Some(value) }
    }
}

impl<T> Task for Ready<T> {
    type Output = T;

    open spec fn next_state(&self) -> Ready<T> {
        Ready { value: None }
    }

    open spec fn outcome(&self) -> Progress<T> {
        match self.value {
            Some(v) => Progress::Done(v),
            None => Progress::Pending,
        }
    }

    fn check(&mut self, _cx: &ResumeContext) -> (r: Progress<T>) {
        match self.value.take() {
            Some(v) => Progress::Done(v),
            None => Progress::Pending,
        }
    }
}

/// A freshly built `Ready` task drives to its stored value with zero
/// not-done reports: one progress check in all.
pub proof fn lemma_ready_drives<T>(t: Ready<T>, v: T)
    requires
        t.value == Some(v),
    ensures
        drives_to(t, 0, v),
        completes(t),
{
    crate::task::lemma_drive_immediate(t, v);
}

/// A task holding a countdown: each progress check that finds the counter
/// positive decrements it once, signals the wake handle, and reports
/// not-done; a check that finds it at zero reports done.
pub struct Countdown {
    /// Checks still to be answered not-done before the task reports done.
    pub count: usize,
}

impl Countdown {
    /// Build a task that reports not-done `count` times before reporting
    /// done.
    pub fn new(count: usize) -> (t: Countdown)
        ensures
            t.count == count,
    {
        Countdown { count }
    }
}

impl Task for Countdown {
    type Output = ();

    open spec fn next_state(&self) -> Countdown {
        if self.count > 0 {
            Countdown { count: (self.count - 1) as usize }
        } else {
            Countdown { count: self.count }
        }
    }

    open spec fn outcome(&self) -> Progress<()> {
        if self.count > 0 {
            Progress::Pending
        } else {
            Progress::Done(())
        }
    }

    fn check(&mut self, cx: &ResumeContext) -> (r: Progress<()>) {
        if self.count > 0 {
            self.count = self.count - 1;
            cx.waker().wake_by_ref();
            Progress::Pending
        } else {
            Progress::Done(())
        }
    }
}

/// After `i` progress checks, a countdown that began at or above `i` stands
/// exactly `i` lower: one decrement per check.
proof fn lemma_countdown_state(t: Countdown, i: nat)
    requires
        i <= t.count,
    ensures
        state_after(t, i).count == t.count - i,
    decreases i,
{
    if i > 0 {
        lemma_countdown_state(t, (i - 1) as nat);
    }
}

/// A countdown built at `count` reports not-done exactly `count` times and
/// then reports done: driving it observes `count + 1` progress checks.
pub proof fn lemma_countdown_drives(t: Countdown)
    ensures
        drives_to(t, t.count as nat, ()),
        completes(t),
{
    assert forall|i: nat|
        i < t.count implies (#[trigger] state_after(t, i)).outcome() is Pending by {
        lemma_countdown_state(t, i);
    };
    lemma_countdown_state(t, t.count as nat);
}

/// A task that reports not-done on every progress check, forever. Driving
/// it unconditionally would never return; the bounded driver reports it
/// still pending however many checks it is allowed.
pub struct NeverDone;

impl Task for NeverDone {
    type Output = ();

    open spec fn next_state(&self) -> NeverDone {
        NeverDone
    }

    open spec fn outcome(&self) -> Progress<()> {
        Progress::Pending
    }

    fn check(&mut self, _cx: &ResumeContext) -> (r: Progress<()>) {
        Progress::Pending
    }
}

/// Driving the never-done task cannot complete: no number of checks and no
/// value satisfy its drive relation, so no check count bounds the driver's
/// loop.
pub proof fn lemma_never_done(t: NeverDone, n: nat, v: ())
    ensures
        !drives_to(t, n, v),
        !completes(t),
{
    assert forall|m: nat, w: ()| !drives_to(t, m, w) by {
        assert(state_after(t, m).outcome() is Pending);
    };
}

} // verus!
