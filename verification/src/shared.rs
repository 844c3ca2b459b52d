//! The shared cells, wakers and weak links that the futures are built from.
//!
//! Everything here is trusted: the items declare outside types and give
//! contracts to outside functions. The cells are written and read by several
//! threads at once, so what a read gives back depends on what the other
//! threads did in between; none of the contracts below says anything about
//! the contents of a cell. The logic that decides what to do with a value
//! taken out of a cell lives in the verified modules, in functions that take
//! that value as an argument.

use vstd::prelude::*;
use std::sync::Arc;
use std::task::Waker;
use atomic_swapping::AtomicSwap;
use atomic_swapping::option::AtomicSwapOption;

verus! {

/// `atomic_swapping::AtomicSwap<T>`: a cell, shared between threads, whose
/// value is only ever exchanged as a whole.
#[verifier::external_type_specification]
#[verifier::external_body]
#[verifier::reject_recursive_types(T)]
pub struct ExAtomicSwap<T>(AtomicSwap<T>);

/// `atomic_swapping::option::AtomicSwapOption<T>`: a shared cell that holds
/// an optional value.
#[verifier::external_type_specification]
#[verifier::external_body]
#[verifier::reject_recursive_types(T)]
pub struct ExAtomicSwapOption<T>(AtomicSwapOption<T>);

/// `std::task::Waker`: the handle by which a task that waits on a future is
/// woken.
#[verifier::external_type_specification]
#[verifier::external_body]
pub struct ExWaker(Waker);

/// `AtomicSwap::new` builds a cell holding `value`. Nothing is claimed of the
/// result: the contents of a cell are not modeled.
pub assume_specification<T>[ AtomicSwap::<T>::new ](value: T) -> AtomicSwap<T>;

/// `AtomicSwap::swap` stores `value` and hands back what the cell held just
/// before. Which value that is depends on the other threads that use the
/// cell, so nothing is claimed of the result. The source spins while another
/// thread is in the middle of a swap and does not panic.
pub assume_specification<T>[ AtomicSwap::<T>::swap ](cell: &AtomicSwap<T>, value: T) -> T;

/// `AtomicSwapOption::from_none` builds an empty cell. Nothing is claimed of
/// the result: the contents of a cell are not modeled.
pub assume_specification<T>[ AtomicSwapOption::<T>::from_none ]() -> AtomicSwapOption<T>;

/// `AtomicSwapOption::set` stores `value`, dropping what the cell held. It
/// returns nothing, and nothing is claimed of the cell afterwards.
pub assume_specification<T>[ AtomicSwapOption::<T>::set ](cell: &AtomicSwapOption<T>, value: Option<T>);

/// `AtomicSwapOption::take` empties the cell and hands back what it held.
/// Which value that is depends on the other threads, so nothing is claimed
/// of the result.
pub assume_specification<T>[ AtomicSwapOption::<T>::take ](cell: &AtomicSwapOption<T>) -> Option<T>;

/// `Waker::wake` wakes the task that the waker belongs to. The effect lies
/// outside the library; nothing is claimed.
pub assume_specification[ Waker::wake ](waker: Waker);

/// `Waker::clone` gives another waker for the same task. That it wakes the
/// same task cannot be stated here; nothing is claimed of the result.
pub assume_specification[ <Waker as Clone>::clone ](waker: &Waker) -> Waker;

/// A non-owning link to a value held in an `Arc`, that is `std::sync::Weak<T>`.
/// `Weak` itself cannot be declared as an outside type here: its allocator
/// parameter cannot be written without an unstable feature. So the link is
/// kept in a private field that only `downgrade` and `upgrade` touch.
#[derive(Debug)]
#[verifier::external_body]
#[verifier::reject_recursive_types(T)]
pub struct WeakShared<T> {
    link: std::sync::Weak<T>,
}

/// `Arc::downgrade`: a weak link to the value behind `shared`. Nothing is
/// claimed of the result, since the link's target is not modeled.
#[verifier::external_body]
pub fn downgrade<T>(shared: &Arc<T>) -> WeakShared<T> {
    WeakShared { link: Arc::downgrade(shared) }
}

/// `Weak::upgrade`: the value behind the link, if some `Arc` still holds it.
/// Whether one does depends on other owners, possibly on other threads, so
/// nothing is claimed of the result.
#[verifier::external_body]
pub fn upgrade<T>(weak: &WeakShared<T>) -> Option<Arc<T>> {
    weak.link.upgrade()
}

} // verus!
