//! A future that races two futures and returns the first one to finish.
//!
//! The two raced futures are polled with wakers of their own. Which of them
//! is worth polling is kept in one shared byte of flags: the waker of a side
//! sets that side's flag, and a poll of the race polls, in each round, the
//! sides whose flag is set, the `Ok` side first. While a round runs the byte
//! holds [`POLLING`]; a round ends by parking (the byte goes back to
//! [`WAITING`]) unless a side woke meanwhile, in which case another round
//! starts. The decisions on the flags are verified here against spec
//! functions over the byte; the laws at the end of the file are stated over
//! them. Polling the raced futures themselves, through `Pin`, and building
//! their wakers are left to the code that runs the rounds.

use vstd::prelude::*;
use std::sync::Arc;
use std::sync::atomic::{AtomicBool, AtomicU8, Ordering};
use std::task::Waker;
use atomic_swapping::option::AtomicSwapOption;

verus! {

/// Nothing is being polled and no side is ready: the race is parked.
pub const WAITING: u8 = 0u8;
/// The `Ok` side woke and is worth polling.
pub const OK_READY: u8 = 1u8;
/// The `Err` side woke and is worth polling.
pub const ERR_READY: u8 = 2u8;
/// A round of polling is running.
pub const POLLING: u8 = 4u8;

/// One of the two raced futures.
#[derive(Clone, Copy, Debug, PartialEq, Eq, Structural)]
pub enum Side {
    /// The future whose output becomes `Ok`.
    OkFuture,
    /// The future whose output becomes `Err`.
    ErrFuture,
}

/// What the code that runs a round does next.
#[derive(Clone, Copy, Debug, PartialEq, Eq, Structural)]
pub enum RaceAction {
    /// Poll this side's future.
    Poll(Side),
    /// Try to park: the round is over.
    Park,
}

/// The flag that a side's waker sets.
pub open spec fn side_flag(side: Side) -> u8 {
    match side {
        Side::OkFuture => OK_READY,
        Side::ErrFuture => ERR_READY,
    }
}

/// The flag of the other side.
pub open spec fn other_flag(side: Side) -> u8 {
    match side {
        Side::OkFuture => ERR_READY,
        Side::ErrFuture => OK_READY,
    }
}

/// Whether `side` is marked ready in `state`.
pub open spec fn side_ready(state: u8, side: Side) -> bool {
    state & side_flag(side) == side_flag(side)
}

/// The state that a wake of `side` leaves when the byte held `previous`.
pub open spec fn after_wake(previous: u8, side: Side) -> u8 {
    previous | side_flag(side)
}

/// Whether a wake of `side`, finding `previous` in the byte, wakes the task
/// that polls the race: only if no round runs and the other side has not
/// already asked for one.
pub open spec fn wake_reaches_task(previous: u8, side: Side) -> bool {
    previous & (other_flag(side) | POLLING) == 0
}

/// The next action in a round that started from `state`, after polling
/// `last` (or at the start of the round, if `last` is `None`) and finding it
/// pending: the `Ok` side first if it is ready, then the `Err` side if it is
/// ready, then park.
pub open spec fn next_action_spec(state: u8, last: Option<Side>) -> RaceAction {
    match last {
        None => if side_ready(state, Side::OkFuture) {
            RaceAction::Poll(Side::OkFuture)
        } else if side_ready(state, Side::ErrFuture) {
            RaceAction::Poll(Side::ErrFuture)
        } else {
            RaceAction::Park
        },
        Some(Side::OkFuture) => if side_ready(state, Side::ErrFuture) {
            RaceAction::Poll(Side::ErrFuture)
        } else {
            RaceAction::Park
        },
        Some(Side::ErrFuture) => RaceAction::Park,
    }
}

/// The flag that `side`'s waker sets.
pub fn ready_flag(side: Side) -> (flag: u8)
    ensures
        flag == side_flag(side),
{
    match side {
        Side::OkFuture => OK_READY,
        Side::ErrFuture => ERR_READY,
    }
}

/// Whether `side` is marked ready in `state`.
pub fn is_side_ready(state: u8, side: Side) -> (ready: bool)
    ensures
        ready == side_ready(state, side),
{
    let flag = ready_flag(side);
    state & flag == flag
}

/// Whether a wake of `side` that found `previous` in the byte must wake the
/// task that polls the race.
pub fn wake_decision(previous: u8, side: Side) -> (wake: bool)
    ensures
        wake == wake_reaches_task(previous, side),
{
    let other = match side {
        Side::OkFuture => ERR_READY,
        Side::ErrFuture => OK_READY,
    };
    previous & (other | POLLING) == 0
}

/// The next action in a round that started from `state`, after polling
/// `last` and finding it pending (`None` at the start of the round).
pub fn next_action(state: u8, last: Option<Side>) -> (action: RaceAction)
    ensures
        action == next_action_spec(state, last),
{
    match last {
        None => if is_side_ready(state, Side::OkFuture) {
            RaceAction::Poll(Side::OkFuture)
        } else if is_side_ready(state, Side::ErrFuture) {
            RaceAction::Poll(Side::ErrFuture)
        } else {
            RaceAction::Park
        },
        Some(Side::OkFuture) => if is_side_ready(state, Side::ErrFuture) {
            RaceAction::Poll(Side::ErrFuture)
        } else {
            RaceAction::Park
        },
        Some(Side::ErrFuture) => RaceAction::Park,
    }
}

/// Tells a raced future when the other one has finished.
#[derive(Clone, Debug)]
pub struct ShouldFinish(Arc<AtomicBool>);

impl ShouldFinish {
    /// The flag that this reads.
    pub closed spec fn flag(&self) -> AtomicBool {
        *self.0
    }

    /// Returns `true` if this future should finish. The flag is set by
    /// another task, so nothing is known of the answer.
    pub fn should_finish(&self) -> bool {
        self.0.load(Ordering::Acquire)
    }
}

/// The flags that a state byte was created with.
pub uninterp spec fn state_byte_start(byte: AtomicU8) -> u8;

/// `AtomicU8::new`: the byte is created holding `flags`, so those are the
/// flags it starts with. Nothing is claimed of what it holds later.
#[verifier::external_body]
fn new_state_byte(flags: u8) -> (byte: AtomicU8)
    ensures
        state_byte_start(byte) == flags,
{
    AtomicU8::new(flags)
}

/// What the race and the wakers of its two sides share.
#[derive(Debug)]
pub struct RaceFutureInner {
    state: AtomicU8,
    waker: AtomicSwapOption<Waker>,
    should_finish: Option<Arc<AtomicBool>>,
}

impl RaceFutureInner {
    /// The flags that the state byte started with, which the first round
    /// polls by.
    pub closed spec fn start_state(&self) -> u8 {
        state_byte_start(self.state)
    }

    /// The flag that is set when the race finishes, if the raced futures
    /// were told about it.
    pub closed spec fn finish_flag(&self) -> Option<AtomicBool> {
        match self.should_finish {
            Some(flag) => Some(*flag),
            None => None,
        }
    }

    /// The shared part of a new race: both sides ready, no waker yet.
    fn new_shared(should_finish: Option<Arc<AtomicBool>>) -> (inner: Self)
        ensures
            inner.start_state() == OK_READY | ERR_READY,
            inner.finish_flag() == (match should_finish {
                Some(flag) => Some(*flag),
                None => None::<AtomicBool>,
            }),
    {
        RaceFutureInner {
            state: new_state_byte(OK_READY | ERR_READY),
            waker: AtomicSwapOption::from_none(),
            should_finish,
        }
    }

    /// Records a wake of `side`: sets the side's flag and, where
    /// [`wake_decision`] says so, wakes the task that polls the race, by
    /// [`RaceFutureInner::wake_task_if`].
    pub fn wake_side(&self, side: Side) {
        let previous = self.state.fetch_or(ready_flag(side), Ordering::AcqRel);
        self.wake_task_if(previous, side);
    }

    /// Finishes a wake of `side` that found `previous` in the byte: where
    /// [`wake_decision`] says so, takes the task's waker out of its slot and
    /// wakes it. Returns whether it did so.
    pub fn wake_task_if(&self, previous: u8, side: Side) -> (reached: bool)
        ensures
            reached == wake_reaches_task(previous, side),
    {
        if wake_decision(previous, side) {
            if let Some(waker) = self.waker.take() {
                waker.wake();
            }
            true
        } else {
            false
        }
    }

    /// Starts a round of polling for the task that `waker` belongs to:
    /// marks the byte [`POLLING`], keeps a clone of the waker and returns
    /// the flags that the byte held, which say which sides to poll. The
    /// byte is changed by the wakers of the sides, possibly on other
    /// threads, so no clause states the answer.
    pub fn begin_round(&self, waker: &Waker) -> (state: u8) {
        let state = self.state.swap(POLLING, Ordering::AcqRel);
        self.waker.set(Some(waker.clone()));
        state
    }

    /// Ends a round: parks the race unless a side woke while the round ran.
    /// Returns whether it parked; if not, another round must run. The byte
    /// is changed by the wakers of the sides, possibly on other threads, so
    /// no clause states the answer.
    pub fn try_park(&self) -> (parked: bool) {
        let exchanged = self.state.compare_exchange(POLLING, WAITING, Ordering::AcqRel, Ordering::Acquire);
        exchanged.is_ok()
    }

    /// Tells the raced futures, if they were given a [`ShouldFinish`], that
    /// the race has finished.
    pub fn signal_finish(&self) {
        if let Some(flag) = &self.should_finish {
            flag.store(true, Ordering::Release);
        }
    }
}

/// A future that races two futures and returns the first one to finish.
#[derive(Debug)]
pub struct RaceFuture<OkF, ErrF> {
    /// The future whose output becomes `Ok`.
    pub ok_future: OkF,
    /// The future whose output becomes `Err`.
    pub err_future: ErrF,
    /// What the race and the wakers of its sides share.
    pub inner: Arc<RaceFutureInner>,
}

impl<OkF, ErrF> RaceFuture<OkF, ErrF> {
    fn priv_new(ok_future: OkF, err_future: ErrF, should_finish: Option<Arc<AtomicBool>>) -> (race: Self)
        ensures
            race.inner.start_state() == OK_READY | ERR_READY,
            race.ok_future == ok_future,
            race.err_future == err_future,
            race.inner.finish_flag() == (match should_finish {
                Some(flag) => Some(*flag),
                None => None::<AtomicBool>,
            }),
    {
        RaceFuture {
            ok_future,
            err_future,
            inner: Arc::new(RaceFutureInner::new_shared(should_finish)),
        }
    }

    /// Creates a new [`RaceFuture`] from two futures. Look to
    /// [`RaceFuture::should_finish`] if these futures should know about each
    /// others' completions.
    pub fn new(ok_future: OkF, err_future: ErrF) -> (race: Self)
        ensures
            race.inner.start_state() == OK_READY | ERR_READY,
            race.ok_future == ok_future,
            race.err_future == err_future,
            race.inner.finish_flag() is None,
    {
        Self::priv_new(ok_future, err_future, None)
    }

    /// Creates a new [`RaceFuture`] from two future generator functions.
    /// These generator functions take a [`ShouldFinish`] that tells them
    /// when the other future has finished.
    pub fn should_finish(
        ok_future_func: impl FnOnce(ShouldFinish) -> OkF,
        err_future_func: impl FnOnce(ShouldFinish) -> ErrF,
    ) -> (race: Self)
        requires
            forall|s: ShouldFinish| ok_future_func.requires((s,)),
            forall|s: ShouldFinish| err_future_func.requires((s,)),
        ensures
            race.inner.start_state() == OK_READY | ERR_READY,
            race.inner.finish_flag() is Some,
            exists|s: ShouldFinish|
                #![trigger ok_future_func.ensures((s,), race.ok_future)]
                s.flag() == race.inner.finish_flag()->Some_0
                    && ok_future_func.ensures((s,), race.ok_future),
            exists|s: ShouldFinish|
                #![trigger err_future_func.ensures((s,), race.err_future)]
                s.flag() == race.inner.finish_flag()->Some_0
                    && err_future_func.ensures((s,), race.err_future),
    {
        let flag = Arc::new(AtomicBool::new(false));
        let ok_signal = ShouldFinish(flag.clone());
        let err_signal = ShouldFinish(flag.clone());
        let ok_future = ok_future_func(ok_signal);
        let err_future = err_future_func(err_signal);
        Self::priv_new(ok_future, err_future, Some(flag))
    }

    /// Creates a new [`RaceFuture`] from a future generator function for
    /// `Ok`. The generator function takes a [`ShouldFinish`] that tells it
    /// when the other future has finished.
    pub fn should_finish_ok(ok_future_func: impl FnOnce(ShouldFinish) -> OkF, err_future: ErrF) -> (race: Self)
        requires
            forall|s: ShouldFinish| ok_future_func.requires((s,)),
        ensures
            race.inner.start_state() == OK_READY | ERR_READY,
            race.err_future == err_future,
            race.inner.finish_flag() is Some,
            exists|s: ShouldFinish|
                #![trigger ok_future_func.ensures((s,), race.ok_future)]
                s.flag() == race.inner.finish_flag()->Some_0
                    && ok_future_func.ensures((s,), race.ok_future),
    {
        let flag = Arc::new(AtomicBool::new(false));
        let ok_signal = ShouldFinish(flag.clone());
        let ok_future = ok_future_func(ok_signal);
        Self::priv_new(ok_future, err_future, Some(flag))
    }

    /// Creates a new [`RaceFuture`] from a future generator function for
    /// `Err`. The generator function takes a [`ShouldFinish`] that tells it
    /// when the other future has finished.
    pub fn should_finish_err(ok_future: OkF, err_future_func: impl FnOnce(ShouldFinish) -> ErrF) -> (race: Self)
        requires
            forall|s: ShouldFinish| err_future_func.requires((s,)),
        ensures
            race.inner.start_state() == OK_READY | ERR_READY,
            race.ok_future == ok_future,
            race.inner.finish_flag() is Some,
            exists|s: ShouldFinish|
                #![trigger err_future_func.ensures((s,), race.err_future)]
                s.flag() == race.inner.finish_flag()->Some_0
                    && err_future_func.ensures((s,), race.err_future),
    {
        let flag = Arc::new(AtomicBool::new(false));
        let err_signal = ShouldFinish(flag.clone());
        let err_future = err_future_func(err_signal);
        Self::priv_new(ok_future, err_future, Some(flag))
    }
}

/// A wake marks its side ready, so the next round polls that side.
pub proof fn lemma_wake_marks_side(previous: u8, side: Side)
    ensures
        side_ready(after_wake(previous, side), side),
{
    assert(forall|p: u8| #[trigger] (p | 1u8) & 1u8 == 1u8) by (bit_vector);
    assert(forall|p: u8| #[trigger] (p | 2u8) & 2u8 == 2u8) by (bit_vector);
}

/// A wake of a parked race reaches the task that polls it.
pub proof fn lemma_wake_when_parked(side: Side)
    ensures
        wake_reaches_task(WAITING, side),
{
    assert(0u8 & (2u8 | 4u8) == 0u8) by (bit_vector);
    assert(0u8 & (1u8 | 4u8) == 0u8) by (bit_vector);
}

/// A wake while a round runs does not wake the task, but leaves the byte
/// other than [`POLLING`], so the round cannot park and another round runs:
/// no wake is lost.
pub proof fn lemma_wake_while_polling(previous: u8, side: Side)
    requires
        previous & POLLING == POLLING,
    ensures
        !wake_reaches_task(previous, side),
        after_wake(previous, side) != POLLING,
        after_wake(previous, side) != WAITING,
{
    assert(forall|p: u8| p & 4u8 == 4u8 ==> #[trigger] (p & (2u8 | 4u8)) != 0u8) by (bit_vector);
    assert(forall|p: u8| p & 4u8 == 4u8 ==> #[trigger] (p & (1u8 | 4u8)) != 0u8) by (bit_vector);
    assert(forall|p: u8| #[trigger] (p | 1u8) != 4u8 && (p | 1u8) != 0u8) by (bit_vector);
    assert(forall|p: u8| #[trigger] (p | 2u8) != 4u8 && (p | 2u8) != 0u8) by (bit_vector);
}

/// Two wakes of a parked race, one from each side, wake the task once, and
/// the round that follows polls both sides.
pub proof fn lemma_both_sides_wake(first: Side, second: Side)
    requires
        first != second,
    ensures
        wake_reaches_task(WAITING, first),
        !wake_reaches_task(after_wake(WAITING, first), second),
        side_ready(after_wake(after_wake(WAITING, first), second), first),
        side_ready(after_wake(after_wake(WAITING, first), second), second),
{
    assert((0u8 | 1u8) & (1u8 | 4u8) != 0u8) by (bit_vector);
    assert((0u8 | 2u8) & (2u8 | 4u8) != 0u8) by (bit_vector);
    assert(((0u8 | 1u8) | 2u8) & 1u8 == 1u8) by (bit_vector);
    assert(((0u8 | 1u8) | 2u8) & 2u8 == 2u8) by (bit_vector);
    assert(((0u8 | 2u8) | 1u8) & 1u8 == 1u8) by (bit_vector);
    assert(((0u8 | 2u8) | 1u8) & 2u8 == 2u8) by (bit_vector);
    lemma_wake_when_parked(first);
}

/// A round polls a side only if the side was marked ready when the round
/// began, polls each side at most once, and never polls the `Ok` side after
/// the `Err` side.
pub proof fn lemma_round_polls_ready_sides(state: u8, last: Option<Side>, side: Side)
    ensures
        next_action_spec(state, last) == RaceAction::Poll(side) ==> side_ready(state, side),
        next_action_spec(state, Some(side)) != RaceAction::Poll(side),
        next_action_spec(state, Some(Side::ErrFuture)) == RaceAction::Park,
{
}

/// The first round of a new race polls the `Ok` side, then the `Err` side,
/// then parks.
pub proof fn lemma_first_round()
    ensures
        next_action_spec(OK_READY | ERR_READY, None) == RaceAction::Poll(Side::OkFuture),
        next_action_spec(OK_READY | ERR_READY, Some(Side::OkFuture)) == RaceAction::Poll(Side::ErrFuture),
        next_action_spec(OK_READY | ERR_READY, Some(Side::ErrFuture)) == RaceAction::Park,
{
    assert((1u8 | 2u8) & 1u8 == 1u8) by (bit_vector);
    assert((1u8 | 2u8) & 2u8 == 2u8) by (bit_vector);
}

/// A round that begins with no side marked ready parks at once.
pub proof fn lemma_idle_round_parks(state: u8)
    requires
        state & (OK_READY | ERR_READY) == 0,
    ensures
        next_action_spec(state, None) == RaceAction::Park,
{
    assert(forall|p: u8| #[trigger] (p & (1u8 | 2u8)) == 0u8 ==> p & 1u8 != 1u8 && p & 2u8 != 2u8) by (bit_vector);
}

/// What a round does, over every byte and in terms of its flags alone: at
/// the start it polls the `Ok` side exactly when the `Ok` flag is set, the
/// `Err` side exactly when only the `Err` flag is set, and parks exactly
/// when neither is; after the `Ok` side it polls the `Err` side exactly when
/// the `Err` flag is set; after the `Err` side it parks.
pub proof fn lemma_round_actions(state: u8)
    ensures
        (next_action_spec(state, None) == RaceAction::Poll(Side::OkFuture))
            <==> (state & OK_READY == OK_READY),
        (next_action_spec(state, None) == RaceAction::Poll(Side::ErrFuture))
            <==> (state & OK_READY != OK_READY && state & ERR_READY == ERR_READY),
        (next_action_spec(state, None) == RaceAction::Park)
            <==> (state & OK_READY != OK_READY && state & ERR_READY != ERR_READY),
        (next_action_spec(state, Some(Side::OkFuture)) == RaceAction::Poll(Side::ErrFuture))
            <==> (state & ERR_READY == ERR_READY),
        (next_action_spec(state, Some(Side::OkFuture)) == RaceAction::Park)
            <==> (state & ERR_READY != ERR_READY),
        next_action_spec(state, Some(Side::ErrFuture)) == RaceAction::Park,
{
}

/// Every side whose flag is set is polled in the round: the `Ok` side first,
/// and the `Err` side either first (when the `Ok` flag is clear) or right
/// after the `Ok` side.
pub proof fn lemma_round_polls_every_flagged_side(state: u8)
    ensures
        state & OK_READY == OK_READY ==> next_action_spec(state, None) == RaceAction::Poll(Side::OkFuture),
        state & ERR_READY == ERR_READY ==> (
            next_action_spec(state, None) == RaceAction::Poll(Side::ErrFuture)
            || (next_action_spec(state, None) == RaceAction::Poll(Side::OkFuture)
                && next_action_spec(state, Some(Side::OkFuture)) == RaceAction::Poll(Side::ErrFuture))),
{
}

/// A wake reaches the task exactly when the byte it found held neither the
/// other side's flag nor [`POLLING`], for either side.
pub proof fn lemma_wake_reaches_task_exactly(previous: u8, side: Side)
    ensures
        wake_reaches_task(previous, side)
            <==> (previous & other_flag(side) == 0 && previous & POLLING == 0),
{
    assert(forall|p: u8| #[trigger] (p & (2u8 | 4u8)) == 0u8 <==> (p & 2u8 == 0u8 && p & 4u8 == 0u8)) by (bit_vector);
    assert(forall|p: u8| #[trigger] (p & (1u8 | 4u8)) == 0u8 <==> (p & 1u8 == 0u8 && p & 4u8 == 0u8)) by (bit_vector);
}

} // verus!
