//! The messages that the sleeping thread receives: a deadline and the
//! future to wake at that deadline. Messages are compared by their deadline
//! alone.
use vstd::prelude::*;
use vstd::std_specs::cmp::PartialEqSpecImpl;
use vstd::std_specs::cmp::PartialOrdSpecImpl;
use vstd::std_specs::cmp::PartialEqIs;
use vstd::std_specs::cmp::PartialOrdIs;
use core::cmp::Ordering;
use futures::future::AbortHandle;
use simple_futures::complete_future::CompleteFutureHandle;
use crate::outside::abort_handle;
use crate::outside::complete_handle;

verus! {

/// What a [`SleepMessage`] wakes when its deadline has come.
#[non_exhaustive]
pub enum SleepMessageFuture {
    /// A complete future, completed at the deadline.
    CompleteFuture(CompleteFutureHandle),
    /// An abort handle for a foreign future, aborted at the deadline.
    AbortHandle(AbortHandle),
}

/// A message for the sleeping thread: wake `future` once the clock reads
/// `sleep_until` or later. Instants are counted in nanoseconds from the
/// start of the runner's clock.
#[non_exhaustive]
pub struct SleepMessage {
    sleep_until: u64,
    future: SleepMessageFuture,
}

/// Why firing a message failed: the complete future that it held had been
/// completed already.
#[derive(Debug, PartialEq, Eq, Structural, Clone, Copy)]
pub enum FireError {
    /// The future was already finished.
    AlreadyFinished,
}

impl SleepMessage {
    /// The instant at which the message is due.
    pub closed spec fn deadline(&self) -> u64 {
        self.sleep_until
    }

    /// Whether the message completes a complete future (else it aborts).
    pub closed spec fn completes(&self) -> bool {
        self.future is CompleteFuture
    }

    /// A message that completes the future behind `handle` at `sleep_until`.
    pub fn completing(sleep_until: u64, handle: CompleteFutureHandle) -> (r: SleepMessage)
        ensures
            r.deadline() == sleep_until,
            r.completes(),
    {
        SleepMessage { sleep_until, future: SleepMessageFuture::CompleteFuture(handle) }
    }

    /// A message that aborts the future behind `handle` at `sleep_until`.
    pub fn aborting(sleep_until: u64, handle: AbortHandle) -> (r: SleepMessage)
        ensures
            r.deadline() == sleep_until,
            !r.completes(),
    {
        SleepMessage { sleep_until, future: SleepMessageFuture::AbortHandle(handle) }
    }

    /// The instant at which the message is due.
    pub fn sleep_until(&self) -> (r: u64)
        ensures
            r == self.deadline(),
    {
        self.sleep_until
    }

    /// Wakes what the message holds: completes its complete future, or
    /// aborts its abortable future. Fails only when the complete future
    /// reports that it had been completed before.
    pub fn fire(self) -> (r: Result<(), FireError>)
        ensures
            !self.completes() ==> r is Ok,
    {
        match self.future {
            SleepMessageFuture::CompleteFuture(handle) => {
                let previous = complete_handle(&handle);
                completion_outcome(previous)
            },
            SleepMessageFuture::AbortHandle(handle) => {
                abort_handle(&handle);
                Ok(())
            },
        }
    }
}

/// What completing a future means, given what its handle reported: `None`
/// (the future was dropped) and `Some(false)` (it was pending) are fine,
/// `Some(true)` (it had been completed before) is an error.
pub fn completion_outcome(previous: Option<bool>) -> (r: Result<(), FireError>)
    ensures
        r is Err <==> previous == Some(true),
        r is Err ==> r == Err::<(), FireError>(FireError::AlreadyFinished),
{
    match previous {
        Some(true) => Err(FireError::AlreadyFinished),
        _ => Ok(()),
    }
}

impl PartialEq for SleepMessage {
    fn eq(&self, other: &Self) -> (r: bool) {
        self.sleep_until == other.sleep_until
    }
}

impl PartialEqSpecImpl for SleepMessage {
    open spec fn obeys_eq_spec() -> bool {
        true
    }

    open spec fn eq_spec(&self, other: &SleepMessage) -> bool {
        self.deadline() == other.deadline()
    }
}

impl Eq for SleepMessage {
}

/// The order of two deadlines.
pub open spec fn deadline_order(a: u64, b: u64) -> Ordering {
    if a < b {
        Ordering::Less
    } else if a == b {
        Ordering::Equal
    } else {
        Ordering::Greater
    }
}

impl PartialOrd for SleepMessage {
    fn partial_cmp(&self, other: &Self) -> (r: Option<Ordering>) {
        if self.sleep_until < other.sleep_until {
            Some(Ordering::Less)
        } else if self.sleep_until == other.sleep_until {
            Some(Ordering::Equal)
        } else {
            Some(Ordering::Greater)
        }
    }

    fn lt(&self, other: &Self) -> (r: bool) {
        self.sleep_until < other.sleep_until
    }

    fn le(&self, other: &Self) -> (r: bool) {
        self.sleep_until <= other.sleep_until
    }

    fn gt(&self, other: &Self) -> (r: bool) {
        self.sleep_until > other.sleep_until
    }

    fn ge(&self, other: &Self) -> (r: bool) {
        self.sleep_until >= other.sleep_until
    }
}

impl PartialOrdSpecImpl for SleepMessage {
    open spec fn obeys_partial_cmp_spec() -> bool {
        true
    }

    open spec fn partial_cmp_spec(&self, other: &SleepMessage) -> Option<Ordering> {
        Some(deadline_order(self.deadline(), other.deadline()))
    }
}

/// Messages are totally ordered by their deadlines, and two messages are
/// equal exactly when neither comes before the other: exactly one of
/// `<`, `==`, `>` holds, swapping the two reverses `<`, and `<` is
/// transitive.
pub proof fn lemma_deadline_order_is_total(a: SleepMessage, b: SleepMessage, c: SleepMessage)
    ensures
        a.is_lt(&b) || a.is_eq(&b) || a.is_gt(&b),
        !(a.is_lt(&b) && a.is_eq(&b)),
        !(a.is_lt(&b) && a.is_gt(&b)),
        !(a.is_eq(&b) && a.is_gt(&b)),
        a.is_lt(&b) <==> b.is_gt(&a),
        a.is_le(&b) <==> a.is_lt(&b) || a.is_eq(&b),
        a.is_lt(&b) && b.is_lt(&c) ==> a.is_lt(&c),
{
}

} // verus!
