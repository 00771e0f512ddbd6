//! Final outcomes of a decorated task and the single advancement step.
//!
//! The scheduler drives a decorated task by repeated polling. Each poll of
//! the combinator polls the active inner computation once and then maps what
//! that poll reported onto the combinator's own result. The mapping is the
//! whole of the combinator's logic, and it is stated and verified here over
//! plain event values.

use vstd::prelude::*;

verus! {

/// What a decorated task finally yields.
///
/// `Expired` is reachable only when a bound was supplied at construction:
/// the unbounded variant maps every inner completion to `Completed`.
///
/// The combinator introduces no failure of its own besides expiry. A task
/// that fails reports the failure as its own value `R` (an error inside a
/// `Result`, say), and that value is relayed unchanged inside `Completed`.
#[derive(Debug, PartialEq, Eq)]
pub enum Outcome<R> {
    /// The task completed before any applicable limit, with its own value.
    Completed(R),
    /// The bound elapsed before the task completed.
    Expired,
}

/// What one poll of the combinator reports to the scheduler.
#[derive(Debug, PartialEq, Eq)]
pub enum Step<R> {
    /// The inner computation cannot progress yet; control returns to the
    /// scheduler, which will poll again after a wake-up.
    NotReady,
    /// The decorated task is done; it must not be polled again.
    Finished(Outcome<R>),
}

/// What one poll of a bare, unbounded task reports.
#[derive(Debug, PartialEq, Eq)]
pub enum TaskPoll<R> {
    /// The task suspended.
    Pending,
    /// The task completed with a value.
    Done(R),
}

/// What one poll of the external bounded wait reports: it races the task
/// against a timer and is the only source of the timed-out event.
#[derive(Debug, PartialEq, Eq)]
pub enum BoundedPoll<R> {
    /// Neither the task nor the timer is ready.
    Pending,
    /// The task completed first, with its value.
    Done(R),
    /// The timer elapsed before the task completed.
    TimedOut,
}

/// The advancement step of the unbounded variant: suspension is propagated
/// unchanged, and a completed value is relayed verbatim as `Completed`.
pub open spec fn unbounded_step<R>(event: TaskPoll<R>) -> Step<R> {
    match event {
        TaskPoll::Pending => Step::NotReady,
        TaskPoll::Done(v) => Step::Finished(Outcome::Completed(v)),
    }
}

/// The advancement step of the bounded variant: suspension is propagated
/// unchanged, a task completion is relayed verbatim as `Completed`, and the
/// timer's expiry is relayed as `Expired`. Which of the two ready events
/// arrives on a tie is the external bounded wait's choice; this step only
/// relays whichever event it was handed.
pub open spec fn bounded_step<R>(event: BoundedPoll<R>) -> Step<R> {
    match event {
        BoundedPoll::Pending => Step::NotReady,
        BoundedPoll::Done(v) => Step::Finished(Outcome::Completed(v)),
        BoundedPoll::TimedOut => Step::Finished(Outcome::Expired),
    }
}

/// Advance an unbounded decorated task one step, given what polling the bare
/// task just reported.
pub fn advance_unbounded<R>(event: TaskPoll<R>) -> (r: Step<R>)
    ensures
        r == unbounded_step(event),
{
    match event {
        TaskPoll::Pending => Step::NotReady,
        TaskPoll::Done(v) => Step::Finished(Outcome::Completed(v)),
    }
}

/// Advance a bounded decorated task one step, given what polling the external
/// bounded wait just reported.
pub fn advance_bounded<R>(event: BoundedPoll<R>) -> (r: Step<R>)
    ensures
        r == bounded_step(event),
{
    match event {
        BoundedPoll::Pending => Step::NotReady,
        BoundedPoll::Done(v) => Step::Finished(Outcome::Completed(v)),
        BoundedPoll::TimedOut => Step::Finished(Outcome::Expired),
    }
}

} // verus!
