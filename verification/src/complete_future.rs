//! A future that only shows completion and no value.
//!
//! A [`CompleteFuture`] and its [`CompleteFutureHandle`] share one cell. The
//! task that waits on the future polls it, which leaves the task's waker in
//! the cell; the worker completes it through the handle, which marks the cell
//! finished and wakes the waiting task. A poll that finds the cell finished
//! puts the finished state back with a second swap. Every operation swaps the
//! whole cell and decides on what the cell held before. The decisions are
//! verified here against an abstract state machine ([`CompleteState`]) that
//! takes one step per operation; the laws at the end of the file (among them
//! that a complete future stays complete) are stated over it, and hold of the
//! code where operations do not overlap. A completion that overlaps a ready
//! poll, between its two swaps, finds the poll's waiting state: it then
//! answers `false` and wakes that task once more.

use vstd::prelude::*;
use std::sync::Arc;
use std::task::Waker;
use atomic_swapping::AtomicSwap;
use crate::shared::{WeakShared, downgrade, upgrade};

verus! {

/// What the shared cell holds: the waker of the task that polled last, and
/// whether completion was signalled.
#[derive(Debug)]
pub struct CompleteFutureInner {
    pub waker: Option<Waker>,
    pub finished: bool,
}

/// The abstract state of the cell: whether a waiting task left its waker,
/// and whether completion was signalled.
pub struct CompleteState {
    pub waiting: bool,
    pub finished: bool,
}

impl View for CompleteFutureInner {
    type V = CompleteState;

    open spec fn view(&self) -> CompleteState {
        CompleteState { waiting: self.waker is Some, finished: self.finished }
    }
}

/// An event on the cell.
pub enum CompleteEvent {
    Poll,
    Complete,
}

/// The state of a new future: nobody waits and nothing was signalled.
pub open spec fn fresh_complete_state() -> CompleteState {
    CompleteState { waiting: false, finished: false }
}

/// The state that a completion leaves: finished, nobody waits.
pub open spec fn completed_state() -> CompleteState {
    CompleteState { waiting: false, finished: true }
}

/// The state that a poll of an unfinished future leaves: a task waits.
pub open spec fn waiting_state() -> CompleteState {
    CompleteState { waiting: true, finished: false }
}

/// The state that an event leaves in the cell when the cell held
/// `previous`. A poll that finds the future finished leaves it finished.
pub open spec fn complete_step(previous: CompleteState, event: CompleteEvent) -> CompleteState {
    match event {
        CompleteEvent::Poll => if previous.finished {
            completed_state()
        } else {
            waiting_state()
        },
        CompleteEvent::Complete => completed_state(),
    }
}

/// The state after a run of events from `start`, one after the other.
pub open spec fn complete_run(start: CompleteState, events: Seq<CompleteEvent>) -> CompleteState
    decreases events.len(),
{
    if events.len() == 0 {
        start
    } else {
        complete_step(complete_run(start, events.drop_last()), events.last())
    }
}

/// What `complete` answers when the cell held `previous`: whether completion
/// had been signalled already (usually an error on the caller's side).
pub open spec fn complete_reply(previous: CompleteState) -> bool {
    previous.finished
}

/// Whether `complete` wakes the waker that the cell held before.
pub open spec fn complete_wakes(previous: CompleteState) -> bool {
    previous.waiting && !previous.finished
}

/// Whether a poll finds the future ready when the cell held `previous`.
pub open spec fn poll_ready(previous: CompleteState) -> bool {
    previous.finished
}

/// The state that the cell of a complete future was created with.
pub uninterp spec fn complete_cell_start(cell: AtomicSwap<CompleteFutureInner>) -> CompleteState;

/// `AtomicSwap::new` for the cell of a complete future: the cell is created
/// holding `value`, so the state it starts with is that of `value`. Nothing
/// is claimed of what the cell holds later.
#[verifier::external_body]
fn new_complete_cell(value: CompleteFutureInner) -> (cell: AtomicSwap<CompleteFutureInner>)
    ensures
        complete_cell_start(cell) == value@,
{
    AtomicSwap::new(value)
}

impl CompleteFutureInner {
    /// The contents of the cell of a new future.
    pub fn unfinished() -> (inner: Self)
        ensures
            inner@ == fresh_complete_state(),
            inner.waker is None,
    {
        CompleteFutureInner { waker: None, finished: false }
    }

    /// What `complete` stores in the cell.
    pub fn completed() -> (inner: Self)
        ensures
            inner@ == completed_state(),
            inner.waker is None,
    {
        CompleteFutureInner { waker: None, finished: true }
    }

    /// What a poll stores in the cell first: a clone of the polling task's
    /// waker.
    pub fn waiting_on(waker: &Waker) -> (inner: Self)
        ensures
            inner@ == waiting_state(),
    {
        CompleteFutureInner { waker: Some(waker.clone()), finished: false }
    }

    /// Decides a completion, given what the cell held before it: the answer
    /// to the caller, and the waker to wake, if any.
    pub fn complete_outcome(self) -> (outcome: (bool, Option<Waker>))
        ensures
            outcome.0 == complete_reply(self@),
            outcome.1 is Some <==> complete_wakes(self@),
            outcome.1 is Some ==> outcome.1 == self.waker,
    {
        match self {
            CompleteFutureInner { finished: true, .. } => (true, None),
            CompleteFutureInner { waker: Some(waker), .. } => (false, Some(waker)),
            _ => (false, None),
        }
    }

    /// Finishes a completion, given what the cell held before it: wakes the
    /// waiting task if the outcome says so and returns the answer.
    pub fn finish_complete(self) -> (already: bool)
        ensures
            already == complete_reply(self@),
    {
        let (already, to_wake) = self.complete_outcome();
        if let Some(waker) = to_wake {
            waker.wake();
        }
        already
    }

    /// Decides a poll, given what the cell held before it: whether the
    /// future is ready. The waker that the cell held is dropped.
    pub fn poll_outcome(self) -> (ready: bool)
        ensures
            ready == poll_ready(self@),
    {
        self.finished
    }
}

/// Completes through `cell`: stores the completed state and decides by
/// [`CompleteFutureInner::finish_complete`] on what the cell held; the
/// answer is the one for the state that the cell held.
fn complete_cell(cell: &AtomicSwap<CompleteFutureInner>) -> (outcome: (bool, Ghost<CompleteState>))
    ensures
        outcome.0 == complete_reply(outcome.1@),
{
    let previous = cell.swap(CompleteFutureInner::completed());
    let ghost seen = previous@;
    (previous.finish_complete(), Ghost(seen))
}

/// Polls through `cell` on behalf of the task that `waker` belongs to:
/// stores a clone of the waker and decides by
/// [`CompleteFutureInner::poll_outcome`] on what the cell held. Where that
/// was the finished state, stores the completed state again, so the future
/// stays complete after a ready poll. The answer is the one for the state
/// that the cell held.
fn poll_cell(cell: &AtomicSwap<CompleteFutureInner>, waker: &Waker) -> (outcome: (bool, Ghost<CompleteState>))
    ensures
        outcome.0 == poll_ready(outcome.1@),
{
    let previous = cell.swap(CompleteFutureInner::waiting_on(waker));
    let ghost seen = previous@;
    let ready = previous.poll_outcome();
    if ready {
        let _own_waiting = cell.swap(CompleteFutureInner::completed());
    }
    (ready, Ghost(seen))
}

/// A future that only completes without returning a value.
#[derive(Debug)]
pub struct CompleteFuture {
    inner: Arc<AtomicSwap<CompleteFutureInner>>,
}

impl CompleteFuture {
    /// The state that this future's cell was created with.
    pub closed spec fn start_state(&self) -> CompleteState {
        complete_cell_start(*self.inner)
    }

    /// Creates a new complete future: its cell starts unfinished, with no
    /// task waiting.
    pub fn new() -> (future: Self)
        ensures
            future.start_state() == fresh_complete_state(),
    {
        CompleteFuture { inner: Arc::new(new_complete_cell(CompleteFutureInner::unfinished())) }
    }

    /// Gets a handle to this future meant to be sent to the worker. The
    /// handle links weakly to this future's cell; the link is not modeled,
    /// so no clause states it.
    pub fn get_handle(&self) -> (handle: CompleteFutureHandle) {
        CompleteFutureHandle { inner: downgrade(&self.inner) }
    }

    /// Completes this future, returning whether it was complete already; if
    /// so it is usually an error. Stores the completed state in the cell and
    /// decides by [`CompleteFutureInner::finish_complete`] on what the cell
    /// held, waking the task that waits, if one does. What the cell held
    /// depends on the other threads that use it, so no clause states the
    /// answer.
    pub fn complete(&self) -> (already: bool) {
        let (already, _seen) = complete_cell(&self.inner);
        already
    }

    /// Polls this future on behalf of the task that `waker` belongs to:
    /// stores a clone of the waker in the cell and returns whether the cell
    /// held the finished state, as decided by
    /// [`CompleteFutureInner::poll_outcome`]; a ready future stays complete.
    /// What the cell held depends on the other threads that use it, so no
    /// clause states the answer.
    pub fn poll(&self, waker: &Waker) -> (ready: bool) {
        let (ready, _seen) = poll_cell(&self.inner, waker);
        ready
    }
}

impl Default for CompleteFuture {
    fn default() -> (future: Self)
        ensures
            future.start_state() == fresh_complete_state(),
    {
        Self::new()
    }
}

/// A completion handle for [`CompleteFuture`]. Meant to be sent where the
/// work is actually getting done.
#[derive(Debug)]
pub struct CompleteFutureHandle {
    inner: WeakShared<AtomicSwap<CompleteFutureInner>>,
}

impl CompleteFutureHandle {
    /// Sets the future to complete and wakes its task if it was not complete
    /// already. Returns whether it was complete already, which is usually an
    /// error, or [`None`] where the future this is a handle for was dropped.
    /// Whether the future lives, and what its cell held, depend on other
    /// owners and threads, so no clause states the answer.
    pub fn complete(&self) -> (already: Option<bool>) {
        match upgrade(&self.inner) {
            None => None,
            Some(inner) => {
                let (already, _seen) = complete_cell(&inner);
                Some(already)
            },
        }
    }
}

/// A poll after a complete finds the future ready and leaves it complete,
/// whatever the cell held before.
pub proof fn lemma_complete_then_poll_is_ready(previous: CompleteState)
    ensures
        poll_ready(complete_step(previous, CompleteEvent::Complete)),
        complete_step(complete_step(previous, CompleteEvent::Complete), CompleteEvent::Poll)
            == completed_state(),
{
}

/// A second complete without a poll in between answers `true`, and wakes
/// nobody.
pub proof fn lemma_complete_twice(previous: CompleteState)
    ensures
        complete_reply(complete_step(previous, CompleteEvent::Complete)),
        !complete_wakes(complete_step(previous, CompleteEvent::Complete)),
{
}

/// A complete after a poll of an unfinished future answers `false` and
/// wakes the waker that the poll left; a second such poll finds the future
/// pending.
pub proof fn lemma_poll_then_complete_wakes(previous: CompleteState)
    requires
        !previous.finished,
    ensures
        !complete_reply(complete_step(previous, CompleteEvent::Poll)),
        complete_wakes(complete_step(previous, CompleteEvent::Poll)),
        !poll_ready(complete_step(previous, CompleteEvent::Poll)),
{
}

/// A new future is pending, and completing it answers `false` and wakes
/// nobody.
pub proof fn lemma_fresh_future()
    ensures
        !poll_ready(fresh_complete_state()),
        !complete_reply(fresh_complete_state()),
        !complete_wakes(fresh_complete_state()),
{
}

/// Once complete, a future stays complete whatever follows: every poll is
/// ready, and every complete answers `true` and wakes nobody.
pub proof fn lemma_complete_is_final(start: CompleteState, events: Seq<CompleteEvent>)
    requires
        start.finished,
    ensures
        complete_run(start, events).finished,
        poll_ready(complete_run(start, events)),
        complete_reply(complete_run(start, events)),
        !complete_wakes(complete_run(start, events)),
    decreases events.len(),
{
    if events.len() > 0 {
        lemma_complete_is_final(start, events.drop_last());
    }
}

/// Over any run of events on a new future: a poll finds the future ready,
/// and a complete answers `true`, exactly when some complete came before;
/// a complete wakes a task exactly when no complete came before and the last
/// event was a poll.
pub proof fn lemma_run_from_fresh(events: Seq<CompleteEvent>)
    ensures
        poll_ready(complete_run(fresh_complete_state(), events))
            <==> (exists|i: int| 0 <= i < events.len() && events[i] is Complete),
        complete_reply(complete_run(fresh_complete_state(), events))
            <==> (exists|i: int| 0 <= i < events.len() && events[i] is Complete),
        complete_wakes(complete_run(fresh_complete_state(), events))
            <==> (!(exists|i: int| 0 <= i < events.len() && events[i] is Complete)
                && events.len() > 0 && events.last() is Poll),
    decreases events.len(),
{
    if events.len() > 0 {
        let before = events.drop_last();
        lemma_run_from_fresh(before);
        if exists|i: int| 0 <= i < before.len() && before[i] is Complete {
            let i = choose|i: int| 0 <= i < before.len() && before[i] is Complete;
            assert(events[i] is Complete);
        }
        if exists|i: int| 0 <= i < events.len() && events[i] is Complete {
            let i = choose|i: int| 0 <= i < events.len() && events[i] is Complete;
            if i < before.len() {
                assert(before[i] is Complete);
            }
        }
    }
}

} // verus!
