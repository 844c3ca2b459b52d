//! Simple futures for use in async operations.
//!
//! [`complete_future`] signals completion without a value, [`value_future`]
//! hands one value from a worker to the task that waits for it, and
//! [`race_future`] races two futures. Each future shares a cell with the
//! worker side; the cells and wakers come from [`shared`].

use vstd::prelude::*;

pub mod complete_future;
pub mod race_future;
pub mod shared;
pub mod value_future;

use complete_future::{CompleteFuture, CompleteFutureHandle};
use race_future::{RaceFutureInner, ShouldFinish};
use value_future::{ValueFuture, ValueFutureHandle};

verus! {

/// Holds of the types that may be sent to another thread.
trait EnsureSend: Send {}

/// Holds of the types that may be shared between threads.
trait EnsureSync: Sync {}

impl EnsureSend for CompleteFuture {}
impl EnsureSync for CompleteFuture {}
impl EnsureSend for CompleteFutureHandle {}
impl EnsureSync for CompleteFutureHandle {}
impl EnsureSend for RaceFutureInner {}
impl EnsureSync for RaceFutureInner {}
impl EnsureSend for ShouldFinish {}
impl EnsureSync for ShouldFinish {}
impl<T: Send> EnsureSend for ValueFuture<T> {}
impl<T: Send> EnsureSync for ValueFuture<T> {}
impl<T: Send> EnsureSend for ValueFutureHandle<T> {}
impl<T: Send> EnsureSync for ValueFutureHandle<T> {}

} // verus!
