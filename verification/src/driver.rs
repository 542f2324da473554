//! The spin-driver: drives one task to completion by pure busy polling.

use vstd::prelude::*;

use crate::task::completes;
use crate::task::drives_to;
use crate::task::pending_through;
use crate::task::state_after;
use crate::task::Progress;
use crate::task::Task;
use crate::wake::noop_waker;
use crate::wake::ResumeContext;

verus! {

/// Relies on core::hint::spin_loop: a spin-wait hint to the execution unit,
/// with no observable effect on the program. Purely a power and throughput
/// hint; correctness never depends on it.
#[verifier::external_body]
fn spin_hint() {
    core::hint::spin_loop();
}

/// Continuously check a task for progress until it reports done, then return
/// the produced value.
///
/// One resumption context, wrapping one no-op wake handle, is built per call
/// and reused across every check. After each not-done report the driver
/// emits a spin hint and immediately asks again: there is no parking, no
/// backoff and no timeout, so the call occupies its execution unit fully
/// until the task completes. The value returned is exactly the one the
/// task's checks drive to — reported done after some number of not-done
/// reports — untransformed.
///
/// The caller must show that driving the task completes at all; for a task
/// with no such guarantee, [`spin_for`] makes a bounded number of checks and
/// never demands one.
pub fn spin_on<F: Task>(task: F) -> (r: F::Output)
    requires
        completes(task),
    ensures
        exists|n: nat| drives_to(task, n, r),
{
    let ghost total: nat = choose|n: nat| (#[trigger] state_after(task, n)).outcome() is Done;
    let mut t = task;
    let ghost mut n: nat = 0;
    let cx = ResumeContext::from_waker(noop_waker());
    loop
        invariant
            t == state_after(task, n),
            pending_through(task, n),
            n <= total,
            state_after(task, total).outcome() is Done,
        decreases total - n,
    {
        match t.check(&cx) {
            Progress::Done(v) => {
                spin_hint();
                proof {
                    assert(drives_to(task, n, v));
                }
                return v;
            },
            Progress::Pending => {
                spin_hint();
                proof {
                    assert(state_after(task, n + 1) == state_after(task, n).next_state());
                    assert forall|i: nat|
                        i < n + 1 implies (#[trigger] state_after(task, i)).outcome()
                        is Pending by {
                        if i == n {
                            assert(state_after(task, i).outcome() is Pending);
                        }
                    };
                    assert(n != total);
                    n = n + 1;
                }
            },
        }
    }
}

/// Check a task for progress at most `checks` times, stopping early as soon
/// as it reports done.
///
/// Where the done report comes within the bound, its value is returned and
/// the task is left in the state that report produced; otherwise every one
/// of the `checks` checks reported not-done, the task is left ready to be
/// checked again, and `Pending` is returned. Unlike [`spin_on`], this
/// demands nothing of the task: a caller with no completion guarantee — or
/// none it can show — can drive in bounded installments and decide between
/// them how long to keep going.
pub fn spin_for<F: Task>(task: &mut F, checks: usize) -> (r: Progress<F::Output>)
    ensures
        r is Pending ==> {
            &&& pending_through(*old(task), checks as nat)
            &&& *final(task) == state_after(*old(task), checks as nat)
        },
        r matches Progress::Done(v) ==> exists|n: nat|
            {
                &&& n < checks
                &&& drives_to(*old(task), n, v)
                &&& *final(task) == state_after(*old(task), n + 1)
            },
{
    let mut i: usize = 0;
    let cx = ResumeContext::from_waker(noop_waker());
    while i < checks
        invariant
            i <= checks,
            *task == state_after(*old(task), i as nat),
            pending_through(*old(task), i as nat),
        decreases checks - i,
    {
        match task.check(&cx) {
            Progress::Done(v) => {
                proof {
                    assert(drives_to(*old(task), i as nat, v));
                    assert(*task == state_after(*old(task), i as nat + 1));
                }
                return Progress::Done(v);
            },
            Progress::Pending => {
                spin_hint();
                proof {
                    assert(state_after(*old(task), i as nat + 1) == state_after(
                        *old(task),
                        i as nat,
                    ).next_state());
                    assert forall|j: nat|
                        j < i as nat + 1 implies (#[trigger] state_after(
                        *old(task),
                        j,
                    )).outcome() is Pending by {
                        if j == i as nat {
                            assert(state_after(*old(task), j).outcome() is Pending);
                        }
                    };
                }
                i = i + 1;
            },
        }
    }
    Progress::Pending
}

} // verus!
