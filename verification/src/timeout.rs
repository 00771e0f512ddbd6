//! The optional-deadline combinator and its construction.
//!
//! `TimeoutOptionalFuture` is a sum over "no deadline", which stores the task
//! unchanged, and "has deadline", which stores the task wrapped by tokio's
//! bounded wait. The variant is chosen once, at construction, from the
//! presence of the bound, and the wrapped task is not otherwise reachable.

use vstd::prelude::*;

verus! {

#[verifier::external_type_specification]
#[verifier::external_body]
#[verifier::reject_recursive_types(T)]
pub struct ExTimeout<T>(tokio::time::Timeout<T>);

#[verifier::external_type_specification]
#[verifier::external_body]
pub struct ExElapsed(tokio::time::error::Elapsed);

/// Relies on tokio::time::timeout: wraps the task together with a fresh
/// timer for `duration`, so that awaiting the result yields the task's value
/// if the task completes first and an elapsed error if the timer fires
/// first, polling the task before checking the timer on each step. The
/// result carries a timer registration, so it must be created inside a
/// runtime with time enabled; when the task and the timer are both still
/// running, dropping it cancels both.
#[verifier::external_body]
fn bounded_wait<T: core::future::Future>(duration: core::time::Duration, task: T) -> tokio::time::Timeout<T> {
    tokio::time::timeout(duration, task)
}

/// A task decorated with an optional deadline: either the bare task, or the
/// task raced against a timer by tokio's bounded wait.
#[verifier::reject_recursive_types(T)]
pub enum TimeoutOptionalFuture<T> where T: core::future::Future {
    /// No bound was supplied: the original task, stored unchanged.
    Origin(T),
    /// A bound was supplied: the task wrapped by the external bounded wait.
    Timeout(tokio::time::Timeout<T>),
}

/// Decorate a task with a mandatory bound, delegating to the external
/// bounded wait and returning its combinator unchanged.
pub fn timeout<T: core::future::Future>(task: T, duration: core::time::Duration) -> tokio::time::Timeout<T> {
    bounded_wait(duration, task)
}

/// Which variant construction selects for a given bound: the bounded one
/// exactly when a bound is present.
pub open spec fn selects_bounded(duration: Option<core::time::Duration>) -> bool {
    duration is Some
}

/// Decorate a task with an optional bound. The variant is selected by the
/// presence of the bound alone: with no bound the task itself is stored,
/// unchanged, so that polling the result is indistinguishable from polling
/// the task directly; with a bound the task is handed to the external
/// bounded wait.
pub fn timeout_optional<T: core::future::Future>(task: T, duration: Option<core::time::Duration>) -> (r: TimeoutOptionalFuture<T>)
    ensures
        r is Timeout <==> selects_bounded(duration),
        duration is None ==> (r matches TimeoutOptionalFuture::Origin(t) && t == task),
{
    match duration {
        None => TimeoutOptionalFuture::Origin(task),
        Some(d) => TimeoutOptionalFuture::Timeout(bounded_wait(d, task)),
    }
}

/// The decoration conveniences, available on every task through the blanket
/// implementation below, so that a caller can attach a mandatory or an
/// optional bound as a single method call instead of an explicit branch.
/// Both methods only delegate to the free constructors.
pub trait FutureTimeoutExt: core::future::Future + Sized {
    /// Attach a mandatory bound; see [`timeout`].
    fn timeout(self, duration: core::time::Duration) -> tokio::time::Timeout<Self> {
        timeout(self, duration)
    }

    /// Attach an optional bound; see [`timeout_optional`].
    fn timeout_optional(self, duration: Option<core::time::Duration>) -> (r: TimeoutOptionalFuture<Self>)
        ensures
            r is Timeout <==> selects_bounded(duration),
            duration is None ==> (r matches TimeoutOptionalFuture::Origin(t) && t == self),
    {
        timeout_optional(self, duration)
    }
}

impl<T> FutureTimeoutExt for T where T: core::future::Future {
}

impl<T> TimeoutOptionalFuture<T> where T: core::future::Future {
    /// Whether the bounded variant was selected at construction. Nothing can
    /// change the variant afterwards: no operation of this type replaces it,
    /// and advancement only polls the stored computation in place.
    pub fn is_bounded(&self) -> (r: bool)
        ensures
            r <==> self is Timeout,
    {
        match self {
            TimeoutOptionalFuture::Origin(_) => false,
            TimeoutOptionalFuture::Timeout(_) => true,
        }
    }
}

} // verus!
