//! A future that can be assigned once and returns a value `T`.
//!
//! A [`ValueFuture`] and its [`ValueFutureHandle`] share one cell and one
//! mark. The task that waits on the future polls it, which takes the value
//! out of the cell, if there is one, and leaves the task's waker there; the
//! worker assigns the value through the handle, which stores it and wakes
//! the waiting task. A poll that takes a value then sets the mark that a
//! value was delivered, and an assignment that finds the mark set is refused
//! and hands its value back. Each operation swaps the whole cell, or reads
//! the mark, and decides on what it found. The decisions are verified here
//! against an abstract state machine ([`ValueState`]) that takes one step
//! per operation; the laws at the end of the file are stated over it, and
//! hold of the code where operations do not overlap. An assignment that
//! overlaps a poll which takes a value may find the mark not yet set: it is
//! then accepted, stored, and delivered by the next poll, so no value that
//! was answered `Ok` is lost.

use vstd::prelude::*;
use std::sync::Arc;
use std::sync::atomic::{AtomicBool, Ordering};
use std::task::Waker;
use atomic_swapping::AtomicSwap;
use crate::shared::{WeakShared, downgrade, upgrade};

verus! {

/// What the shared cell holds: the waker of the task that polled last, and
/// the value assigned and not yet taken by a poll.
#[derive(Debug)]
pub struct ValueFutureInner<T> {
    pub waker: Option<Waker>,
    pub data: Option<T>,
}

/// The abstract contents of the cell: whether a waiting task left its
/// waker, and the value that waits to be taken.
pub struct ValueCell<T> {
    pub waiting: bool,
    pub data: Option<T>,
}

/// The abstract state of a future: its cell, and whether a poll has taken a
/// value already.
pub struct ValueState<T> {
    pub cell: ValueCell<T>,
    pub delivered: bool,
}

impl<T> View for ValueFutureInner<T> {
    type V = ValueCell<T>;

    open spec fn view(&self) -> ValueCell<T> {
        ValueCell { waiting: self.waker is Some, data: self.data }
    }
}

/// An event on the future.
pub enum ValueEvent<T> {
    Poll,
    Assign(T),
}

/// What an assignment does, given the mark it read.
pub enum AssignStep<T> {
    /// A value was delivered already: refuse, handing this value back.
    Refuse(T),
    /// Store this value in the cell.
    Store(T),
}

/// The state of a new future: nobody waits, nothing was assigned.
pub open spec fn fresh_value_state<T>() -> ValueState<T> {
    ValueState { cell: ValueCell { waiting: false, data: None }, delivered: false }
}

/// The cell that an assignment of `value` stores.
pub open spec fn holding_cell<T>(value: T) -> ValueCell<T> {
    ValueCell { waiting: false, data: Some(value) }
}

/// The cell that a poll stores.
pub open spec fn waiting_cell<T>() -> ValueCell<T> {
    ValueCell { waiting: true, data: None }
}

/// The state that an event leaves when the future was in `previous`. A
/// poll that takes a value marks the future delivered; an assignment to a
/// delivered future changes nothing.
pub open spec fn value_step<T>(previous: ValueState<T>, event: ValueEvent<T>) -> ValueState<T> {
    match event {
        ValueEvent::Poll => ValueState {
            cell: waiting_cell(),
            delivered: previous.delivered || previous.cell.data is Some,
        },
        ValueEvent::Assign(value) => if previous.delivered {
            previous
        } else {
            ValueState { cell: holding_cell(value), delivered: false }
        },
    }
}

/// The state after a run of events from `start`, one after the other.
pub open spec fn value_run<T>(start: ValueState<T>, events: Seq<ValueEvent<T>>) -> ValueState<T>
    decreases events.len(),
{
    if events.len() == 0 {
        start
    } else {
        value_step(value_run(start, events.drop_last()), events.last())
    }
}

/// What an assignment that stores its value answers when the cell held
/// `previous`: `Err` with the value that was there and not yet taken
/// (usually an error on the caller's side), or `Ok`.
pub open spec fn cell_assign_reply<T>(previous: ValueCell<T>) -> Result<(), T> {
    match previous.data {
        Some(old) => Err(old),
        None => Ok(()),
    }
}

/// Whether an assignment that stores its value wakes the waker that the
/// cell held.
pub open spec fn cell_assign_wakes<T>(previous: ValueCell<T>) -> bool {
    previous.waiting && previous.data is None
}

/// What an assignment of `value` answers when the future was in
/// `previous`: on a delivered future it is refused and `value` comes back.
pub open spec fn assign_reply<T>(previous: ValueState<T>, value: T) -> Result<(), T> {
    if previous.delivered {
        Err(value)
    } else {
        cell_assign_reply(previous.cell)
    }
}

/// Whether an assignment wakes the waiting task when the future was in
/// `previous`.
pub open spec fn assign_wakes<T>(previous: ValueState<T>) -> bool {
    !previous.delivered && cell_assign_wakes(previous.cell)
}

/// What a poll gets when the future was in `previous`: the value in the
/// cell, if one waits.
pub open spec fn poll_reply<T>(previous: ValueState<T>) -> Option<T> {
    previous.cell.data
}

/// Decides an assignment of `val`, given the mark it read: refused if a
/// value was delivered, else stored.
pub fn assign_gate<T>(delivered: bool, val: T) -> (step: AssignStep<T>)
    ensures
        step == (if delivered { AssignStep::Refuse(val) } else { AssignStep::Store(val) }),
{
    if delivered {
        AssignStep::Refuse(val)
    } else {
        AssignStep::Store(val)
    }
}

impl<T> ValueFutureInner<T> {
    /// The contents of the cell of a new future.
    pub fn empty() -> (inner: Self)
        ensures
            inner@ == fresh_value_state::<T>().cell,
    {
        ValueFutureInner { waker: None, data: None }
    }

    /// What an assignment stores in the cell.
    pub fn holding(value: T) -> (inner: Self)
        ensures
            inner@ == holding_cell(value),
    {
        ValueFutureInner { waker: None, data: Some(value) }
    }

    /// What a poll stores in the cell: a clone of the polling task's waker.
    pub fn waiting_on(waker: &Waker) -> (inner: Self)
        ensures
            inner@ == waiting_cell::<T>(),
    {
        ValueFutureInner { waker: Some(waker.clone()), data: None }
    }

    /// Decides a stored assignment, given what the cell held before it: the
    /// answer to the caller, and the waker to wake, if any.
    pub fn assign_outcome(self) -> (outcome: (Result<(), T>, Option<Waker>))
        ensures
            outcome.0 == cell_assign_reply(self@),
            outcome.1 is Some <==> cell_assign_wakes(self@),
            outcome.1 is Some ==> outcome.1 == self.waker,
    {
        match self {
            ValueFutureInner { data: Some(old), .. } => (Err(old), None),
            ValueFutureInner { waker: Some(waker), .. } => (Ok(()), Some(waker)),
            _ => (Ok(()), None),
        }
    }

    /// Finishes a stored assignment, given what the cell held before it:
    /// wakes the waiting task if the outcome says so and returns the answer.
    pub fn finish_assign(self) -> (reply: Result<(), T>)
        ensures
            reply == cell_assign_reply(self@),
    {
        let (reply, to_wake) = self.assign_outcome();
        if let Some(waker) = to_wake {
            waker.wake();
        }
        reply
    }

    /// Decides a poll, given what the cell held before it: the value, if one
    /// waits. The waker that the cell held is dropped.
    pub fn poll_outcome(self) -> (value: Option<T>)
        ensures
            value == self@.data,
    {
        self.data
    }
}

/// What a future and its handles share: the cell, and the mark that a poll
/// has taken a value.
#[derive(Debug)]
#[verifier::reject_recursive_types(T)]
pub struct ValueShared<T> {
    cell: AtomicSwap<ValueFutureInner<T>>,
    delivered: AtomicBool,
}

/// Assigns `val` through `shared`: reads the mark and decides by
/// [`assign_gate`]; a refused value comes back as `Err`, a stored one is
/// swapped into the cell and the answer decided by
/// [`ValueFutureInner::finish_assign`] on what the cell held. The answer is
/// the one for the state found: the mark read and the cell swapped out.
fn assign_shared<T>(shared: &ValueShared<T>, val: T) -> (outcome: (Result<(), T>, Ghost<ValueState<T>>))
    ensures
        outcome.0 == assign_reply(outcome.1@, val),
{
    let delivered = shared.delivered.load(Ordering::SeqCst);
    match assign_gate(delivered, val) {
        AssignStep::Refuse(val) => {
            let ghost seen = ValueState { cell: ValueCell { waiting: false, data: None }, delivered: true };
            (Err(val), Ghost(seen))
        },
        AssignStep::Store(val) => {
            let previous = shared.cell.swap(ValueFutureInner::holding(val));
            let ghost seen = ValueState { cell: previous@, delivered: false };
            (previous.finish_assign(), Ghost(seen))
        },
    }
}

/// Sets `flag` where `take` says so. Returns whether it did.
fn mark_if(flag: &AtomicBool, take: bool) -> (marked: bool)
    ensures
        marked == take,
{
    if take {
        flag.store(true, Ordering::SeqCst);
    }
    take
}

/// Polls through `shared` on behalf of the task that `waker` belongs to:
/// stores a clone of the waker, takes the value that the cell held, as
/// [`ValueFutureInner::poll_outcome`] decides, and sets the mark exactly
/// where it took one: a poll that finds nothing leaves the mark as it was.
fn poll_shared<T>(shared: &ValueShared<T>, waker: &Waker) -> (outcome: (Option<T>, bool, Ghost<ValueCell<T>>))
    ensures
        outcome.0 == outcome.2@.data,
        outcome.1 == (outcome.0 is Some),
{
    let previous = shared.cell.swap(ValueFutureInner::waiting_on(waker));
    let ghost seen = previous@;
    let value = previous.poll_outcome();
    let marked = mark_if(&shared.delivered, value.is_some());
    (value, marked, Ghost(seen))
}

/// A future that returns a `T` and can be assigned from the worker side.
#[derive(Debug)]
#[verifier::reject_recursive_types(T)]
pub struct ValueFuture<T> {
    inner: Arc<ValueShared<T>>,
}

impl<T> ValueFuture<T> {
    /// Creates a new `ValueFuture`: its cell holds the state of
    /// [`ValueFutureInner::empty`] and its mark is clear. The contents of a
    /// cell are not modeled, so no clause states it.
    pub fn new() -> (future: Self) {
        ValueFuture {
            inner: Arc::new(ValueShared {
                cell: AtomicSwap::new(ValueFutureInner::empty()),
                delivered: AtomicBool::new(false),
            }),
        }
    }

    /// Gets a handle to this future meant to be sent to the worker. The
    /// handle links weakly to this future's cell; the link is not modeled,
    /// so no clause states it.
    pub fn get_handle(&self) -> (handle: ValueFutureHandle<T>) {
        ValueFutureHandle { inner: downgrade(&self.inner) }
    }

    /// Assigns `val` to this future. Returns `Err` with `val` itself, not
    /// stored, once a poll has taken a value; else stores `val` and returns
    /// `Err` with the value that had been assigned before and not yet taken,
    /// which is usually an error, or `Ok`. Decides as [`assign_gate`] and
    /// [`ValueFutureInner::finish_assign`] say, waking the task that waits,
    /// if one does. What the mark and the cell held depends on the other
    /// threads that use them, so no clause states the answer.
    pub fn assign(&self, val: T) -> (reply: Result<(), T>) {
        let (reply, _seen) = assign_shared(&self.inner, val);
        reply
    }

    /// Polls this future on behalf of the task that `waker` belongs to:
    /// stores a clone of the waker in the cell, taking out the value that
    /// waits there, if any, as decided by
    /// [`ValueFutureInner::poll_outcome`], and marks the future delivered if
    /// it took one. What the cell held depends on the other threads that
    /// use it, so no clause states the answer.
    pub fn poll(&self, waker: &Waker) -> (value: Option<T>) {
        let (value, _marked, _seen) = poll_shared(&self.inner, waker);
        value
    }
}

impl<T> Default for ValueFuture<T> {
    fn default() -> Self {
        Self::new()
    }
}

/// A handle for [`ValueFuture`]. Meant to be sent where the work is actually
/// getting done.
#[derive(Debug)]
#[verifier::reject_recursive_types(T)]
pub struct ValueFutureHandle<T> {
    inner: WeakShared<ValueShared<T>>,
}

impl<T> ValueFutureHandle<T> {
    /// Assigns a value to the future. Returns `Err` if this has already been
    /// assigned to; the answer is as for [`ValueFuture::assign`], or
    /// [`None`] where the future this is a handle for was dropped, in which
    /// case `val` is dropped. Whether the future lives, and what its mark
    /// and cell held, depend on other owners and threads, so no clause
    /// states the answer.
    pub fn assign(&self, val: T) -> (reply: Option<Result<(), T>>) {
        match upgrade(&self.inner) {
            None => None,
            Some(inner) => {
                let (reply, _seen) = assign_shared(&inner, val);
                Some(reply)
            },
        }
    }
}

/// A poll after an assignment to an undelivered future gets the assigned
/// value, and marks the future delivered.
pub proof fn lemma_assign_then_poll<T>(previous: ValueState<T>, value: T)
    requires
        !previous.delivered,
    ensures
        poll_reply(value_step(previous, ValueEvent::Assign(value))) == Some(value),
        value_step(value_step(previous, ValueEvent::Assign(value)), ValueEvent::Poll).delivered,
{
}

/// A second assignment without a poll in between answers `Err` with the
/// first value and wakes nobody; the second value is the one a poll gets.
pub proof fn lemma_assign_twice<T>(previous: ValueState<T>, first: T, second: T)
    requires
        !previous.delivered,
    ensures
        assign_reply(value_step(previous, ValueEvent::Assign(first)), second) == Err::<(), T>(first),
        !assign_wakes(value_step(previous, ValueEvent::Assign(first))),
        poll_reply(value_step(value_step(previous, ValueEvent::Assign(first)), ValueEvent::Assign(second)))
            == Some(second),
{
}

/// An assignment after a poll that found nothing answers `Ok` and wakes the
/// waker that the poll left; that poll itself got nothing.
pub proof fn lemma_poll_then_assign_wakes<T>(previous: ValueState<T>, value: T)
    requires
        !previous.delivered,
        previous.cell.data is None,
    ensures
        poll_reply(previous) is None,
        assign_reply(value_step(previous, ValueEvent::Poll), value) == Ok::<(), T>(()),
        assign_wakes(value_step(previous, ValueEvent::Poll)),
{
}

/// A new future is pending, and assigning to it answers `Ok` and wakes
/// nobody.
pub proof fn lemma_fresh_value_future<T>(value: T)
    ensures
        poll_reply(fresh_value_state::<T>()) is None,
        assign_reply(fresh_value_state::<T>(), value) == Ok::<(), T>(()),
        !assign_wakes(fresh_value_state::<T>()),
{
}

/// Once a value was taken, the future stays delivered whatever follows:
/// every poll gets nothing, and every assignment is refused, hands its value
/// back and wakes nobody.
pub proof fn lemma_delivered_is_final<T>(start: ValueState<T>, events: Seq<ValueEvent<T>>, value: T)
    requires
        start.delivered,
        start.cell.data is None,
    ensures
        value_run(start, events).delivered,
        value_run(start, events).cell.data is None,
        poll_reply(value_run(start, events)) is None,
        assign_reply(value_run(start, events), value) == Err::<(), T>(value),
        !assign_wakes(value_run(start, events)),
    decreases events.len(),
{
    if events.len() > 0 {
        lemma_delivered_is_final(start, events.drop_last(), value);
    }
}

/// The number of polls in a run from `start` that get a value.
pub open spec fn deliveries<T>(start: ValueState<T>, events: Seq<ValueEvent<T>>) -> nat
    decreases events.len(),
{
    if events.len() == 0 {
        0
    } else {
        let before = events.drop_last();
        deliveries(start, before) + if events.last() is Poll && poll_reply(value_run(start, before)) is Some {
            1nat
        } else {
            0nat
        }
    }
}

/// A future is assigned once: over any run of events on a new future, at
/// most one poll gets a value, and once one has, the future is delivered
/// and its cell stays empty.
pub proof fn lemma_assigned_once<T>(events: Seq<ValueEvent<T>>)
    ensures
        deliveries(fresh_value_state::<T>(), events) <= 1,
        deliveries(fresh_value_state::<T>(), events) == 1 ==> value_run(fresh_value_state::<T>(), events).delivered,
        value_run(fresh_value_state::<T>(), events).delivered ==> value_run(fresh_value_state::<T>(), events).cell.data is None,
    decreases events.len(),
{
    if events.len() > 0 {
        let before = events.drop_last();
        lemma_assigned_once(before);
    }
}

/// A poll marks the future delivered exactly when it takes a value, or the
/// future was delivered before; the value it gets is what the cell held.
pub proof fn lemma_poll_marks_only_on_take<T>(previous: ValueState<T>)
    ensures
        value_step(previous, ValueEvent::Poll).delivered == (previous.delivered || previous.cell.data is Some),
        poll_reply(previous) == previous.cell.data,
        value_step(previous, ValueEvent::Poll).cell.data is None,
{
}

/// Polls that find nothing do not stand in the way of a later assignment:
/// after any number of such polls on a new future, an assignment answers
/// `Ok`, and the next poll gets the assigned value.
pub proof fn lemma_pending_polls_then_assign<T>(polls: nat, value: T)
    ensures
        !value_run(fresh_value_state::<T>(), Seq::new(polls, |i: int| ValueEvent::<T>::Poll)).delivered,
        value_run(fresh_value_state::<T>(), Seq::new(polls, |i: int| ValueEvent::<T>::Poll)).cell.data is None,
        assign_reply(value_run(fresh_value_state::<T>(), Seq::new(polls, |i: int| ValueEvent::<T>::Poll)), value)
            == Ok::<(), T>(()),
        poll_reply(value_step(
            value_run(fresh_value_state::<T>(), Seq::new(polls, |i: int| ValueEvent::<T>::Poll)),
            ValueEvent::Assign(value),
        )) == Some(value),
    decreases polls,
{
    if polls > 0 {
        lemma_pending_polls_then_assign::<T>((polls - 1) as nat, value);
        let events = Seq::new(polls, |i: int| ValueEvent::<T>::Poll);
        assert(events.drop_last() =~= Seq::new((polls - 1) as nat, |i: int| ValueEvent::<T>::Poll));
    }
}

/// The first assignment to a new future, made before any poll, answers
/// `Ok` and stores its value for the next poll.
pub proof fn lemma_first_assign_is_stored<T>(value: T)
    ensures
        assign_reply(fresh_value_state::<T>(), value) == Ok::<(), T>(()),
        poll_reply(value_step(fresh_value_state::<T>(), ValueEvent::Assign(value))) == Some(value),
{
}

} // verus!
