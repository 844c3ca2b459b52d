use std::sync::atomic::{AtomicUsize, Ordering};
use std::sync::Arc;
use std::task::{Wake, Waker};

use simple_futures::race_future::{
    is_side_ready, next_action, ready_flag, wake_decision, RaceAction, RaceFuture, Side, ShouldFinish,
    ERR_READY, OK_READY, POLLING, WAITING,
};

struct CountingWaker(Arc<AtomicUsize>);

impl Wake for CountingWaker {
    fn wake(self: Arc<Self>) {
        self.0.fetch_add(1, Ordering::SeqCst);
    }
}

fn get_waker(wake_count: Arc<AtomicUsize>) -> Waker {
    Waker::from(Arc::new(CountingWaker(wake_count)))
}

#[test]
fn flags_of_sides() {
    assert_eq!(OK_READY, ready_flag(Side::OkFuture));
    assert_eq!(ERR_READY, ready_flag(Side::ErrFuture));
    assert_eq!((0u8, 1u8, 2u8, 4u8), (WAITING, OK_READY, ERR_READY, POLLING));
}

#[test]
fn side_readiness() {
    assert!(is_side_ready(OK_READY | ERR_READY, Side::OkFuture));
    assert!(is_side_ready(OK_READY | ERR_READY, Side::ErrFuture));
    assert!(is_side_ready(POLLING | ERR_READY, Side::ErrFuture));
    assert!(!is_side_ready(POLLING | ERR_READY, Side::OkFuture));
    assert!(!is_side_ready(WAITING, Side::OkFuture));
    assert!(!is_side_ready(POLLING, Side::ErrFuture));
}

#[test]
fn wake_decisions() {
    assert!(wake_decision(WAITING, Side::OkFuture));
    assert!(wake_decision(WAITING, Side::ErrFuture));
    assert!(wake_decision(OK_READY, Side::OkFuture));
    assert!(!wake_decision(ERR_READY, Side::OkFuture));
    assert!(!wake_decision(OK_READY, Side::ErrFuture));
    assert!(!wake_decision(POLLING, Side::OkFuture));
    assert!(!wake_decision(POLLING | OK_READY, Side::ErrFuture));
}

#[test]
fn round_order() {
    let both = OK_READY | ERR_READY;
    assert_eq!(RaceAction::Poll(Side::OkFuture), next_action(both, None));
    assert_eq!(RaceAction::Poll(Side::ErrFuture), next_action(both, Some(Side::OkFuture)));
    assert_eq!(RaceAction::Park, next_action(both, Some(Side::ErrFuture)));
    assert_eq!(RaceAction::Poll(Side::ErrFuture), next_action(ERR_READY, None));
    assert_eq!(RaceAction::Park, next_action(OK_READY, Some(Side::OkFuture)));
    assert_eq!(RaceAction::Park, next_action(WAITING, None));
}

#[test]
fn new_race_keeps_futures() {
    let race = RaceFuture::new(3u8, "err");
    assert_eq!(3u8, race.ok_future);
    assert_eq!("err", race.err_future);
}

#[test]
fn should_finish_flag_is_shared() {
    let race = RaceFuture::should_finish(|s: ShouldFinish| s, |s: ShouldFinish| s);
    assert!(!race.ok_future.should_finish());
    assert!(!race.err_future.should_finish());
    race.inner.signal_finish();
    assert!(race.ok_future.should_finish());
    assert!(race.err_future.should_finish());
}

#[test]
fn should_finish_one_side() {
    let race = RaceFuture::should_finish_ok(|s: ShouldFinish| s, 10u32);
    assert_eq!(10u32, race.err_future);
    assert!(!race.ok_future.should_finish());
    race.inner.signal_finish();
    assert!(race.ok_future.should_finish());

    let race = RaceFuture::should_finish_err(11u32, |s: ShouldFinish| s.clone());
    assert_eq!(11u32, race.ok_future);
    assert!(!race.err_future.should_finish());
    race.inner.signal_finish();
    assert!(race.err_future.should_finish());
}

#[test]
fn signal_without_flag_does_nothing() {
    let race = RaceFuture::new((), ());
    race.inner.signal_finish();
}

#[test]
fn rounds_and_wakes() {
    let race = RaceFuture::new((), ());
    let wake_count = Arc::new(AtomicUsize::new(0));
    let waker = get_waker(wake_count.clone());

    // The first round polls both sides; nothing woke, so it parks.
    assert_eq!(OK_READY | ERR_READY, race.inner.begin_round(&waker));
    assert!(race.inner.try_park());

    // A wake of a parked race wakes the task once.
    race.inner.wake_side(Side::OkFuture);
    assert_eq!(1, wake_count.load(Ordering::SeqCst));
    race.inner.wake_side(Side::ErrFuture);
    assert_eq!(1, wake_count.load(Ordering::SeqCst));

    // The next round polls both woken sides.
    assert_eq!(OK_READY | ERR_READY, race.inner.begin_round(&waker));

    // A wake while the round runs does not wake the task, but the round
    // cannot park.
    race.inner.wake_side(Side::ErrFuture);
    assert_eq!(1, wake_count.load(Ordering::SeqCst));
    assert!(!race.inner.try_park());
    assert_eq!(POLLING | ERR_READY, race.inner.begin_round(&waker));
    assert!(race.inner.try_park());
    assert_eq!(1, wake_count.load(Ordering::SeqCst));
}
