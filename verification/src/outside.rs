//! The outside crates as this library sees them: the types that it carries
//! through without looking inside, and the calls that it makes into them.
//! Everything here is believed, not proved; each doc comment says what is
//! claimed of the outside code.
use vstd::prelude::*;
use concurrency_traits::queue::ParkQueue;
use concurrency_traits::queue::TryQueue;
use concurrency_traits::StdThreadFunctions;
use futures::future::AbortHandle;
use simple_futures::complete_future::CompleteFuture;
use simple_futures::complete_future::CompleteFutureHandle;
use simple_futures::value_future::ValueFutureHandle;
use std::sync::Arc;
use std::sync::Weak;

verus! {

/// `simple_futures::complete_future::CompleteFuture`: a future that becomes
/// ready once its handle completes it. Carried through, never looked into.
#[verifier::external_type_specification]
#[verifier::external_body]
pub struct ExCompleteFuture(CompleteFuture);

/// `simple_futures::complete_future::CompleteFutureHandle`: the weak handle
/// with which the sleeping thread completes a `CompleteFuture`.
#[verifier::external_type_specification]
#[verifier::external_body]
pub struct ExCompleteFutureHandle(CompleteFutureHandle);

/// `futures::future::AbortHandle`: the handle that aborts an `Abortable`
/// future.
#[verifier::external_type_specification]
#[verifier::external_body]
pub struct ExAbortHandle(AbortHandle);

/// A shared FIFO queue: an `Arc` of a `concurrency_traits` `ParkQueue`
/// running on the std thread functions. Verus refuses a declaration of
/// `ParkQueue` (its parameter is bounded by an outside trait), so the queue
/// stands in this struct, whose insides Verus does not see.
///
/// The queue is shared between threads and changed through shared
/// references, so no Verus value of it can follow its contents: nothing is
/// stated of what it holds, only what its `try_push` returns.
#[verifier::external_body]
#[verifier::reject_recursive_types(T)]
pub struct SharedQueue<T> {
    pub queue: Arc<ParkQueue<T, StdThreadFunctions>>,
}

/// A weak reference to the queue of a [`SharedQueue`]: it does not keep the
/// queue alive.
#[verifier::external_body]
#[verifier::reject_recursive_types(T)]
pub struct WeakQueue<T> {
    pub queue: Weak<ParkQueue<T, StdThreadFunctions>>,
}

impl<T> SharedQueue<T> {
    /// Calls `TryQueue::try_push` of `ParkQueue`. In the crate's source that
    /// method appends the value under its lock, unparks one waiting thread
    /// and returns `Ok(())` on every path: the contract claims that the
    /// result is always `Ok`.
    #[verifier::external_body]
    pub(crate) fn try_push(&self, value: T) -> (r: Result<(), T>)
        ensures
            r is Ok,
    {
        self.queue.try_push(value)
    }

    /// Calls `std::sync::Arc::downgrade` on the queue. Nothing is claimed of
    /// the weak reference beyond its type.
    #[verifier::external_body]
    pub(crate) fn downgrade(&self) -> (r: WeakQueue<T>) {
        WeakQueue { queue: Arc::downgrade(&self.queue) }
    }
}

impl<T> WeakQueue<T> {
    /// Calls `std::sync::Weak::upgrade`. Whether the queue is still alive
    /// depends on the other owners of it, so nothing is claimed of the
    /// result.
    #[verifier::external_body]
    pub(crate) fn upgrade(&self) -> (r: Option<SharedQueue<T>>) {
        match self.queue.upgrade() {
            None => None,
            Some(queue) => Some(SharedQueue { queue }),
        }
    }

    /// Calls `Clone::clone` of `std::sync::Weak`: another weak reference to
    /// the same queue. Nothing is claimed of it beyond its type.
    #[verifier::external_body]
    pub(crate) fn share(&self) -> (r: WeakQueue<T>) {
        WeakQueue { queue: self.queue.clone() }
    }
}

/// Calls `CompleteFuture::new`: a fresh, not yet completed future.
#[verifier::external_body]
pub(crate) fn new_complete_future() -> (r: CompleteFuture) {
    CompleteFuture::new()
}

/// Calls `CompleteFuture::get_handle`: a weak handle to the given future.
#[verifier::external_body]
pub(crate) fn complete_future_handle(future: &CompleteFuture) -> (r: CompleteFutureHandle) {
    future.get_handle()
}

/// Calls `CompleteFutureHandle::complete`. It returns `None` when the future
/// was dropped, else whether it had already been completed before, which
/// depends on the other holders of the future: nothing is claimed of the
/// result.
#[verifier::external_body]
pub(crate) fn complete_handle(handle: &CompleteFutureHandle) -> (r: Option<bool>) {
    handle.complete()
}

/// Calls `AbortHandle::abort`, which marks the abortable future aborted and
/// wakes it. It returns nothing.
#[verifier::external_body]
pub(crate) fn abort_handle(handle: &AbortHandle) {
    handle.abort()
}

/// `simple_futures::value_future::ValueFutureHandle`: the weak handle
/// through which a `ValueFuture` is given its value.
#[verifier::external_type_specification]
#[verifier::external_body]
#[verifier::reject_recursive_types(T)]
pub struct ExValueFutureHandle<T>(ValueFutureHandle<T>);

/// Calls `ValueFutureHandle::assign`. It returns `None` when the future was
/// dropped, else whether the future took the value, which depends on what
/// else was assigned to it: nothing is claimed of the result.
#[verifier::external_body]
pub(crate) fn assign_value<T>(handle: &ValueFutureHandle<T>, value: T) -> (r: Option<Result<(), T>>) {
    handle.assign(value)
}

} // verus!
