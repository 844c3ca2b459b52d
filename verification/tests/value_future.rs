use rand::{thread_rng, Rng};
use std::sync::atomic::{AtomicUsize, Ordering};
use std::sync::Arc;
use std::task::{Wake, Waker};

use simple_futures::value_future::{assign_gate, AssignStep, ValueFuture, ValueFutureInner};

struct CountingWaker(Arc<AtomicUsize>);

impl Wake for CountingWaker {
    fn wake(self: Arc<Self>) {
        self.0.fetch_add(1, Ordering::SeqCst);
    }
}

fn get_waker(wake_count: Arc<AtomicUsize>) -> Waker {
    Waker::from(Arc::new(CountingWaker(wake_count)))
}

#[test]
fn value_future_functionality_test() {
    for _ in 0..1024 {
        let value_future = ValueFuture::new();
        let wake_count = Arc::new(AtomicUsize::new(0));
        assert!(value_future.poll(&get_waker(wake_count.clone())).is_none());
        let value: usize = thread_rng().gen();
        assert!(value_future.assign(value).is_ok());
        assert_eq!(1, wake_count.load(Ordering::SeqCst));
        let result = value_future.poll(&get_waker(wake_count.clone()));
        match result {
            Some(future_value) => assert_eq!(future_value, value),
            None => panic!("Result should be ready!"),
        }
    }
}

#[test]
fn assign_twice_returns_first_value_and_keeps_second() {
    let future = ValueFuture::new();
    let wake_count = Arc::new(AtomicUsize::new(0));
    assert_eq!(Ok(()), future.assign(7u32));
    assert_eq!(Err(7u32), future.assign(9u32));
    assert_eq!(Some(9u32), future.poll(&get_waker(wake_count.clone())));
    assert_eq!(None, future.poll(&get_waker(wake_count.clone())));
    assert_eq!(0, wake_count.load(Ordering::SeqCst));
}

#[test]
fn value_future_is_assigned_once() {
    let future = ValueFuture::new();
    let handle = future.get_handle();
    let wake_count = Arc::new(AtomicUsize::new(0));
    assert_eq!(None, future.poll(&get_waker(wake_count.clone())));
    assert_eq!(Some(Ok(())), handle.assign(1u64));
    assert_eq!(1, wake_count.load(Ordering::SeqCst));
    assert_eq!(Some(1u64), future.poll(&get_waker(wake_count.clone())));
    assert_eq!(Some(Err(2u64)), handle.assign(2u64));
    assert_eq!(Err(3u64), future.assign(3u64));
    assert_eq!(None, future.poll(&get_waker(wake_count.clone())));
    assert_eq!(Err(4u64), future.assign(4u64));
    assert_eq!(1, wake_count.load(Ordering::SeqCst));
}

#[test]
fn assign_before_poll_is_ready_at_once() {
    let future: ValueFuture<String> = ValueFuture::default();
    let wake_count = Arc::new(AtomicUsize::new(0));
    assert_eq!(Ok(()), future.assign("done".to_string()));
    assert_eq!(Some("done".to_string()), future.poll(&get_waker(wake_count.clone())));
    assert_eq!(0, wake_count.load(Ordering::SeqCst));
}

#[test]
fn handle_assigns_value() {
    let future = ValueFuture::new();
    let handle = future.get_handle();
    let wake_count = Arc::new(AtomicUsize::new(0));
    assert_eq!(None, future.poll(&get_waker(wake_count.clone())));
    assert_eq!(Some(Ok(())), handle.assign(5i64));
    assert_eq!(1, wake_count.load(Ordering::SeqCst));
    assert_eq!(Some(Err(5i64)), handle.assign(6i64));
    assert_eq!(Some(6i64), future.poll(&get_waker(wake_count.clone())));
    assert_eq!(1, wake_count.load(Ordering::SeqCst));
}

#[test]
fn value_handle_of_dropped_future_answers_none() {
    let future = ValueFuture::<u8>::new();
    let handle = future.get_handle();
    drop(future);
    assert_eq!(None, handle.assign(1u8));
}

#[test]
fn assign_outcome_decides_on_previous_state() {
    let wake_count = Arc::new(AtomicUsize::new(0));
    let (reply, to_wake) = ValueFutureInner { waker: Some(get_waker(wake_count.clone())), data: None::<u8> }.assign_outcome();
    assert_eq!(Ok(()), reply);
    to_wake.expect("a waiting task is woken").wake();
    assert_eq!(1, wake_count.load(Ordering::SeqCst));

    let (reply, to_wake) = ValueFutureInner { waker: Some(get_waker(wake_count.clone())), data: Some(3u8) }.assign_outcome();
    assert_eq!(Err(3u8), reply);
    assert!(to_wake.is_none());

    let (reply, to_wake) = ValueFutureInner { waker: None, data: None::<u8> }.assign_outcome();
    assert_eq!(Ok(()), reply);
    assert!(to_wake.is_none());

    let (reply, to_wake) = ValueFutureInner { waker: None, data: Some(4u8) }.assign_outcome();
    assert_eq!(Err(4u8), reply);
    assert!(to_wake.is_none());
}

#[test]
fn finish_assign_wakes_waiting_task() {
    let wake_count = Arc::new(AtomicUsize::new(0));
    assert_eq!(Ok(()), ValueFutureInner { waker: Some(get_waker(wake_count.clone())), data: None::<u8> }.finish_assign());
    assert_eq!(1, wake_count.load(Ordering::SeqCst));
    assert_eq!(Err(2u8), ValueFutureInner { waker: Some(get_waker(wake_count.clone())), data: Some(2u8) }.finish_assign());
    assert_eq!(1, wake_count.load(Ordering::SeqCst));
}

#[test]
fn value_poll_outcome_and_stored_states() {
    let wake_count = Arc::new(AtomicUsize::new(0));
    assert_eq!(Some(8u16), ValueFutureInner { waker: None, data: Some(8u16) }.poll_outcome());
    assert_eq!(None, ValueFutureInner::<u16> { waker: Some(get_waker(wake_count.clone())), data: None }.poll_outcome());
    let empty = ValueFutureInner::<u16>::empty();
    assert!(empty.waker.is_none() && empty.data.is_none());
    let holding = ValueFutureInner::holding(12u16);
    assert!(holding.waker.is_none());
    assert_eq!(Some(12u16), holding.data);
    let waiting = ValueFutureInner::<u16>::waiting_on(&get_waker(wake_count.clone()));
    assert!(waiting.waker.is_some() && waiting.data.is_none());
    assert_eq!(0, wake_count.load(Ordering::SeqCst));
}

#[test]
fn assign_gate_refuses_after_delivery() {
    assert!(matches!(assign_gate(true, 5u8), AssignStep::Refuse(5u8)));
    assert!(matches!(assign_gate(false, 6u8), AssignStep::Store(6u8)));
}
