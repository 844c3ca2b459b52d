use std::sync::atomic::{AtomicUsize, Ordering};
use std::sync::Arc;
use std::task::{Wake, Waker};

use simple_futures::complete_future::{CompleteFuture, CompleteFutureInner};

struct CountingWaker(Arc<AtomicUsize>);

impl Wake for CountingWaker {
    fn wake(self: Arc<Self>) {
        self.0.fetch_add(1, Ordering::SeqCst);
    }
}

fn get_waker(wake_count: Arc<AtomicUsize>) -> Waker {
    Waker::from(Arc::new(CountingWaker(wake_count)))
}

#[test]
fn complete_future_functionality_test() {
    let complete_future = CompleteFuture::new();
    let wake_count = Arc::new(AtomicUsize::new(0));
    assert!(!complete_future.poll(&get_waker(wake_count.clone())));
    assert!(!complete_future.complete());
    assert_eq!(1, wake_count.load(Ordering::SeqCst));
    assert!(complete_future.poll(&get_waker(wake_count.clone())));
}

#[test]
fn complete_twice_reports_true() {
    let future = CompleteFuture::new();
    assert!(!future.complete());
    assert!(future.complete());
}

#[test]
fn complete_on_fresh_future_wakes_nobody() {
    let future = CompleteFuture::default();
    let wake_count = Arc::new(AtomicUsize::new(0));
    assert!(!future.complete());
    assert_eq!(0, wake_count.load(Ordering::SeqCst));
    assert!(future.poll(&get_waker(wake_count.clone())));
    assert_eq!(0, wake_count.load(Ordering::SeqCst));
}

#[test]
fn complete_future_stays_complete_after_ready_poll() {
    let future = CompleteFuture::new();
    let handle = future.get_handle();
    let wake_count = Arc::new(AtomicUsize::new(0));
    assert!(!future.poll(&get_waker(wake_count.clone())));
    assert!(!future.complete());
    assert_eq!(1, wake_count.load(Ordering::SeqCst));
    assert!(future.poll(&get_waker(wake_count.clone())));
    assert!(future.poll(&get_waker(wake_count.clone())));
    assert!(future.complete());
    assert_eq!(Some(true), handle.complete());
    assert_eq!(1, wake_count.load(Ordering::SeqCst));
    assert!(future.poll(&get_waker(wake_count.clone())));
}

#[test]
fn second_poll_drops_first_waker() {
    let future = CompleteFuture::new();
    let first = Arc::new(AtomicUsize::new(0));
    let second = Arc::new(AtomicUsize::new(0));
    assert!(!future.poll(&get_waker(first.clone())));
    assert!(!future.poll(&get_waker(second.clone())));
    assert!(!future.complete());
    assert_eq!(0, first.load(Ordering::SeqCst));
    assert_eq!(1, second.load(Ordering::SeqCst));
}

#[test]
fn handle_completes_future() {
    let future = CompleteFuture::new();
    let handle = future.get_handle();
    let wake_count = Arc::new(AtomicUsize::new(0));
    assert!(!future.poll(&get_waker(wake_count.clone())));
    assert_eq!(Some(false), handle.complete());
    assert_eq!(1, wake_count.load(Ordering::SeqCst));
    assert_eq!(Some(true), handle.complete());
    assert_eq!(1, wake_count.load(Ordering::SeqCst));
    assert!(future.poll(&get_waker(wake_count.clone())));
}

#[test]
fn complete_handle_of_dropped_future_answers_none() {
    let future = CompleteFuture::new();
    let handle = future.get_handle();
    drop(future);
    assert_eq!(None, handle.complete());
}

#[test]
fn complete_outcome_decides_on_previous_state() {
    let wake_count = Arc::new(AtomicUsize::new(0));
    let (already, to_wake) = CompleteFutureInner { waker: Some(get_waker(wake_count.clone())), finished: false }.complete_outcome();
    assert!(!already);
    to_wake.expect("a waiting task is woken").wake();
    assert_eq!(1, wake_count.load(Ordering::SeqCst));

    let (already, to_wake) = CompleteFutureInner { waker: Some(get_waker(wake_count.clone())), finished: true }.complete_outcome();
    assert!(already);
    assert!(to_wake.is_none());

    let (already, to_wake) = CompleteFutureInner { waker: None, finished: false }.complete_outcome();
    assert!(!already);
    assert!(to_wake.is_none());

    let (already, to_wake) = CompleteFutureInner { waker: None, finished: true }.complete_outcome();
    assert!(already);
    assert!(to_wake.is_none());
}

#[test]
fn finish_complete_wakes_waiting_task() {
    let wake_count = Arc::new(AtomicUsize::new(0));
    assert!(!CompleteFutureInner { waker: Some(get_waker(wake_count.clone())), finished: false }.finish_complete());
    assert_eq!(1, wake_count.load(Ordering::SeqCst));
    assert!(CompleteFutureInner { waker: Some(get_waker(wake_count.clone())), finished: true }.finish_complete());
    assert_eq!(1, wake_count.load(Ordering::SeqCst));
}

#[test]
fn complete_poll_outcome_and_stored_states() {
    let wake_count = Arc::new(AtomicUsize::new(0));
    assert!(CompleteFutureInner { waker: None, finished: true }.poll_outcome());
    assert!(!CompleteFutureInner { waker: None, finished: false }.poll_outcome());
    let fresh = CompleteFutureInner::unfinished();
    assert!(fresh.waker.is_none() && !fresh.finished);
    let done = CompleteFutureInner::completed();
    assert!(done.waker.is_none() && done.finished);
    let waiting = CompleteFutureInner::waiting_on(&get_waker(wake_count.clone()));
    assert!(waiting.waker.is_some() && !waiting.finished);
    waiting.waker.unwrap().wake();
    assert_eq!(1, wake_count.load(Ordering::SeqCst));
}
