use std::future::Future;
use std::sync::atomic::{AtomicBool, Ordering};
use std::sync::Arc;
use std::time::Duration;

use futures_util::FutureExt;

use timeout_optional::{
    advance_bounded, advance_unbounded, timeout_optional, BoundedPoll, FutureTimeoutExt, Outcome,
    Step, TaskPoll, TimeoutOptionalFuture,
};

fn rt() -> tokio::runtime::Runtime {
    tokio::runtime::Builder::new_current_thread()
        .enable_time()
        .build()
        .unwrap()
}

/// Drive a decorated task to its final outcome, feeding what the inner
/// computation reported through the library's advancement step.
async fn run_optional<T: std::future::Future>(f: TimeoutOptionalFuture<T>) -> Outcome<T::Output> {
    match f {
        TimeoutOptionalFuture::Origin(t) => {
            let v = t.await;
            match advance_unbounded(TaskPoll::Done(v)) {
                Step::Finished(o) => o,
                Step::NotReady => unreachable!(),
            }
        }
        TimeoutOptionalFuture::Timeout(t) => {
            let event = match t.await {
                Ok(v) => BoundedPoll::Done(v),
                Err(_) => BoundedPoll::TimedOut,
            };
            match advance_bounded(event) {
                Step::Finished(o) => o,
                Step::NotReady => unreachable!(),
            }
        }
    }
}

#[test]
fn timeout_test() {
    rt().block_on(async {
        let pin = async move {
            tokio::time::sleep(Duration::from_secs(2)).await;
        }
        .boxed();
        pin.timeout(Duration::from_secs(1)).await.unwrap_err();
    });
}

#[test]
fn timeout_test2() {
    rt().block_on(async {
        let pin = async move {
            tokio::time::sleep(Duration::from_secs(1)).await;
        }
        .boxed();
        assert_eq!(pin.timeout(Duration::from_secs(2)).await, Ok(()));
    });
}

#[test]
fn advance_unbounded_maps_events() {
    assert_eq!(advance_unbounded(TaskPoll::<u8>::Pending), Step::NotReady);
    assert_eq!(
        advance_unbounded(TaskPoll::Done(7u8)),
        Step::Finished(Outcome::Completed(7u8))
    );
}

#[test]
fn advance_bounded_maps_events() {
    assert_eq!(advance_bounded(BoundedPoll::<u8>::Pending), Step::NotReady);
    assert_eq!(
        advance_bounded(BoundedPoll::Done(7u8)),
        Step::Finished(Outcome::Completed(7u8))
    );
    assert_eq!(
        advance_bounded(BoundedPoll::<u8>::TimedOut),
        Step::Finished(Outcome::Expired)
    );
}

#[test]
fn expires_when_bound_shorter_than_task() {
    let out = rt().block_on(async {
        let task = async {
            tokio::time::sleep(Duration::from_millis(200)).await;
            5u8
        };
        run_optional(timeout_optional(task, Some(Duration::from_millis(100)))).await
    });
    assert_eq!(out, Outcome::<u8>::Expired);
}

#[test]
fn completes_when_bound_longer_than_task() {
    let out = rt().block_on(async {
        let task = async {
            tokio::time::sleep(Duration::from_millis(100)).await;
            5u8
        };
        run_optional(task.timeout_optional(Some(Duration::from_millis(200)))).await
    });
    assert_eq!(out, Outcome::Completed(5u8));
}

#[test]
fn unbounded_completes_after_full_sleep() {
    let start = std::time::Instant::now();
    let out = rt().block_on(async {
        let task = async {
            tokio::time::sleep(Duration::from_millis(100)).await;
            42u32
        };
        run_optional(timeout_optional(task, None)).await
    });
    assert_eq!(out, Outcome::Completed(42u32));
    assert!(start.elapsed() >= Duration::from_millis(100));
}

#[test]
fn variant_selection_consistent() {
    rt().block_on(async {
        let a = timeout_optional(async { 1u8 }, Some(Duration::from_millis(5)));
        let b = timeout_optional(async { 2u8 }, Some(Duration::from_millis(500)));
        assert!(a.is_bounded());
        assert!(b.is_bounded());
        let c = timeout_optional(async { 3u8 }, None);
        let d = timeout_optional(async { 3u8 }, None);
        assert!(!c.is_bounded());
        assert!(!d.is_bounded());
        assert!(matches!(c, TimeoutOptionalFuture::Origin(_)));
        assert!(matches!(b, TimeoutOptionalFuture::Timeout(_)));
    });
}

struct SetOnDrop(Arc<AtomicBool>);

impl Drop for SetOnDrop {
    fn drop(&mut self) {
        self.0.store(true, Ordering::SeqCst);
    }
}

#[test]
fn drop_mid_flight_releases_inner_task() {
    let dropped = Arc::new(AtomicBool::new(false));
    let dropped_in_task = dropped.clone();
    rt().block_on(async move {
        let guard = SetOnDrop(dropped_in_task);
        let task = async move {
            let _guard = guard;
            tokio::time::sleep(Duration::from_secs(10)).await;
            0u8
        };
        let f = timeout_optional(task, Some(Duration::from_secs(10)));
        assert!(f.is_bounded());
        match f {
            TimeoutOptionalFuture::Timeout(t) => {
                let mut t = Box::pin(t);
                // advance once, so the combinator is mid-flight when discarded
                std::future::poll_fn(|cx| match t.as_mut().poll(cx) {
                    std::task::Poll::Pending => std::task::Poll::Ready(()),
                    std::task::Poll::Ready(_) => panic!("ready before either source"),
                })
                .await;
                drop(t);
            }
            TimeoutOptionalFuture::Origin(_) => unreachable!(),
        }
    });
    assert!(dropped.load(Ordering::SeqCst));
}
