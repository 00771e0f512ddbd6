//! An optional-deadline combinator for asynchronous tasks.
//!
//! A task decorated with no bound behaves exactly as the bare task; a task
//! decorated with a bound races against a timer supplied by the tokio
//! runtime and yields either the task's value or an expiry indication.

pub mod model;
pub mod outcome;
pub mod timeout;

pub use outcome::{advance_bounded, advance_unbounded, BoundedPoll, Outcome, Step, TaskPoll};
pub use timeout::{timeout, timeout_optional, FutureTimeoutExt, TimeoutOptionalFuture};
