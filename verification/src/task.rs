//! The task abstraction: a poll-based state machine with a single
//! "check progress" operation, and the spec-level relation that says what
//! driving such a machine observes.

use vstd::prelude::*;

use crate::wake::ResumeContext;

verus! {

/// The outcome of one progress check: either the task is done, carrying its
/// result value (terminal), or it is not yet done and must be checked again
/// (non-terminal). No intermediate variant exists, and a non-terminal
/// outcome carries no value.
#[derive(PartialEq, Eq, Debug)]
pub enum Progress<T> {
    /// Not yet done: the driver must ask again.
    Pending,
    /// Done, carrying the task's result value.
    Done(T),
}

/// A cooperatively-suspending computation: a state machine whose single
/// operation, `check`, either completes with a result or reports that it
/// must be asked again later.
///
/// The two spec functions give the machine's transition relation: what one
/// check reports from a given state, and which state it leaves behind. Both
/// depend on the task's state alone, never on the resumption context, so a
/// task must tolerate a context whose wake handle does nothing — failing to
/// be woken is not an error.
pub trait Task: Sized {
    /// The type of the value the task produces when it completes.
    type Output;

    /// The state one progress check leaves the task in.
    spec fn next_state(&self) -> Self;

    /// What one progress check from this state reports.
    spec fn outcome(&self) -> Progress<Self::Output>;

    /// Make one progress check with the given resumption context.
    fn check(&mut self, cx: &ResumeContext) -> (r: Progress<Self::Output>)
        ensures
            r == old(self).outcome(),
            *final(self) == old(self).next_state(),
    ;
}

/// The state a task reaches after `n` progress checks from state `t`.
pub open spec fn state_after<T: Task>(t: T, n: nat) -> T
    decreases n,
{
    if n == 0 {
        t
    } else {
        state_after(t, (n - 1) as nat).next_state()
    }
}

/// The first `n` progress checks from state `t` all report not-done.
pub open spec fn pending_through<T: Task>(t: T, n: nat) -> bool {
    forall|i: nat| i < n ==> (#[trigger] state_after(t, i)).outcome() is Pending
}

/// Driving from state `t` observes exactly `n` not-done reports followed by
/// one done report carrying `v`: `n + 1` progress checks in all.
pub open spec fn drives_to<T: Task>(t: T, n: nat, v: T::Output) -> bool {
    &&& pending_through(t, n)
    &&& state_after(t, n).outcome() == Progress::<T::Output>::Done(v)
}

/// A task state from which driving completes: some number of progress
/// checks reaches a state whose check reports done.
pub open spec fn completes<T: Task>(t: T) -> bool {
    exists|n: nat| (#[trigger] state_after(t, n)).outcome() is Done
}

/// A task that reports done on its very first progress check, with value
/// `v`, drives to `v` after exactly one check: zero not-done reports.
pub proof fn lemma_drive_immediate<T: Task>(t: T, v: T::Output)
    requires
        t.outcome() == Progress::<T::Output>::Done(v),
    ensures
        drives_to(t, 0, v),
{
    assert(state_after(t, 0) == t);
}

/// Driving is deterministic, and its check count is exact: a task state
/// admits at most one pair of a not-done count and a done value. In
/// particular, a task that reports not-done exactly `n` times before
/// reporting done with `v` is driven through exactly `n + 1` checks and
/// yields `v`, never anything else.
pub proof fn lemma_drives_to_unique<T: Task>(
    t: T,
    n1: nat,
    v1: T::Output,
    n2: nat,
    v2: T::Output,
)
    requires
        drives_to(t, n1, v1),
        drives_to(t, n2, v2),
    ensures
        n1 == n2,
        v1 == v2,
{
    if n1 < n2 {
        assert(state_after(t, n1).outcome() is Pending);
        assert(false);
    }
    if n2 < n1 {
        assert(state_after(t, n2).outcome() is Pending);
        assert(false);
    }
}

/// Driving is deterministic: repeated drives from equal task states that
/// complete yield the same value every time.
pub proof fn lemma_drive_deterministic<T: Task>(
    t1: T,
    t2: T,
    n1: nat,
    v1: T::Output,
    n2: nat,
    v2: T::Output,
)
    requires
        t1 == t2,
        drives_to(t1, n1, v1),
        drives_to(t2, n2, v2),
    ensures
        v1 == v2,
{
    lemma_drives_to_unique(t1, n1, v1, n2, v2);
}

} // verus!
