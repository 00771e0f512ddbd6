//! A discrete-time model of whole runs, and the laws of the combinator.
//!
//! The scheduler polls once per time-unit, at times 0, 1, 2, ... A task is
//! modelled by the time `n` at which it becomes ready and the value `v` it
//! then yields: every poll before time `n` suspends, and the poll at time
//! `n` completes. The external bounded wait with a bound of `d` time-units
//! races such a task against a timer that fires at time `d`. Over this model
//! the laws below state, for every task and every poll, what decorating with
//! an optional bound does.

use vstd::prelude::*;

use crate::outcome::{bounded_step, unbounded_step, BoundedPoll, Outcome, Step, TaskPoll};
use crate::timeout::selects_bounded;

verus! {

/// What polling a bare task that becomes ready at time `n` with value `v`
/// reports at time `i`.
pub open spec fn task_event<R>(n: nat, v: R, i: nat) -> TaskPoll<R> {
    if i < n {
        TaskPoll::Pending
    } else {
        TaskPoll::Done(v)
    }
}

/// What polling the external bounded wait reports at time `i`, for a task
/// that becomes ready at time `n` with value `v` and a timer that fires at
/// time `d`. While neither is ready it suspends; once one is ready it
/// reports whichever came first. When both become ready at the same poll it
/// reports the task's completion, as tokio's bounded wait does (it polls the
/// task before checking the timer); that tie rests with the external
/// combinator, and the laws below do not depend on it.
pub open spec fn bounded_event<R>(n: nat, d: nat, v: R, i: nat) -> BoundedPoll<R> {
    if i < n && i < d {
        BoundedPoll::Pending
    } else if n <= d {
        BoundedPoll::Done(v)
    } else {
        BoundedPoll::TimedOut
    }
}

/// Decorating with no bound is transparent. For every task and every poll,
/// the unbounded combinator suspends exactly at the polls where the bare
/// task suspends — the same suspension count — and at the poll where the
/// bare task completes it finishes with `Completed` of the task's own value.
pub proof fn lemma_unbounded_transparent<R>(n: nat, v: R, i: nat)
    ensures
        unbounded_step(task_event(n, v, i)) is NotReady <==> task_event(n, v, i) is Pending,
        i < n ==> unbounded_step(task_event(n, v, i)) == Step::<R>::NotReady,
        n <= i ==> unbounded_step(task_event(n, v, i)) == Step::Finished(Outcome::Completed(v)),
{
}

/// A task that completes strictly before the bound elapses. The bounded
/// combinator suspends at every poll before the task is ready, and at the
/// task's completion time it finishes with `Completed` of the task's own
/// value; expiry is never reported.
pub proof fn lemma_bounded_completes_in_time<R>(n: nat, d: nat, v: R, i: nat)
    requires
        n < d,
    ensures
        i < n ==> bounded_step(bounded_event(n, d, v, i)) == Step::<R>::NotReady,
        n <= i ==> bounded_step(bounded_event(n, d, v, i)) == Step::Finished(Outcome::Completed(v)),
        bounded_step(bounded_event(n, d, v, i)) != Step::Finished(Outcome::<R>::Expired),
{
}

/// A task that takes strictly longer than the bound. The bounded combinator
/// suspends at every poll before the timer fires, and when the timer fires
/// it finishes with `Expired`; the task's value is never reported.
pub proof fn lemma_bounded_expires<R>(n: nat, d: nat, v: R, i: nat)
    requires
        d < n,
    ensures
        i < d ==> bounded_step(bounded_event(n, d, v, i)) == Step::<R>::NotReady,
        d <= i ==> bounded_step(bounded_event(n, d, v, i)) == Step::Finished(Outcome::<R>::Expired),
        bounded_step(bounded_event(n, d, v, i)) != Step::Finished(Outcome::Completed(v)),
{
}

/// Variant selection reads nothing but the presence of the bound: two
/// constructions whose bounds are equally present or equally absent select
/// the same variant, whatever the tasks and whatever the durations.
pub proof fn lemma_variant_selection_deterministic(b1: Option<core::time::Duration>, b2: Option<core::time::Duration>)
    requires
        b1 is Some <==> b2 is Some,
    ensures
        selects_bounded(b1) == selects_bounded(b2),
{
}

/// Whether the bounded variant is in force after some number of
/// advancements, given whether it was selected at construction: each single
/// advancement polls the stored computation in place and leaves the variant
/// as it was.
pub open spec fn bounded_after_polls(selected_bounded: bool, polls: nat) -> bool
    decreases polls,
{
    if polls == 0 {
        selected_bounded
    } else {
        bounded_after_polls(selected_bounded, (polls - 1) as nat)
    }
}

/// The variant never changes after construction: however many times the
/// combinator is advanced, the variant in force is the one construction
/// selected.
pub proof fn lemma_variant_stable(selected_bounded: bool, polls: nat)
    ensures
        bounded_after_polls(selected_bounded, polls) == selected_bounded,
    decreases polls,
{
    if polls > 0 {
        lemma_variant_stable(selected_bounded, (polls - 1) as nat);
    }
}

} // verus!
