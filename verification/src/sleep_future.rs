//! The side of the sleep runner that futures talk to: it turns a request to
//! sleep (or to time out) into a message for the sleeping thread.
//!
//! Instants are counted in nanoseconds on the runner's clock; the caller
//! reads the clock and hands the reading in as `now`.
use vstd::prelude::*;
use futures::future::AbortHandle;
use simple_futures::complete_future::CompleteFuture;
use crate::outside::complete_future_handle;
use crate::outside::new_complete_future;
use crate::outside::SharedQueue;
use crate::sleep_message::SleepMessage;

verus! {

/// Runs asynchronous sleeps: a separate thread holds the messages sent
/// through `queue` and wakes each one at its deadline (see
/// [`SleepSchedule`](crate::sleep_schedule::SleepSchedule)).
pub struct SleepFutureRunner {
    queue: SharedQueue<SleepMessage>,
}

impl SleepFutureRunner {
    /// The queue through which the runner sends messages to its thread.
    pub closed spec fn spec_queue(&self) -> SharedQueue<SleepMessage> {
        self.queue
    }

    /// A runner that sends its messages through `queue`, whose other end
    /// the sleeping thread reads.
    pub fn from_queue(queue: SharedQueue<SleepMessage>) -> (r: Self)
        ensures
            r.spec_queue() == queue,
    {
        SleepFutureRunner { queue }
    }

    /// The queue through which the runner sends messages to its thread.
    pub fn queue(&self) -> (r: &SharedQueue<SleepMessage>)
        ensures
            *r == self.spec_queue(),
    {
        &self.queue
    }

    /// Starts a sleep for `time` nanoseconds from `start`: the same as
    /// [`sleep_until`](Self::sleep_until) at `start + time`, where `now` is
    /// the clock read again when the sleep is started.
    pub fn sleep_for(&self, time: u64, start: u64, now: u64) -> (r: Option<CompleteFuture>)
        requires
            start + time <= u64::MAX,
        ensures
            r is None <==> start + time < now,
    {
        let end = start + time;
        self.sleep_until(end, now)
    }

    /// Starts a sleep until `instant`. An instant before `now` needs no
    /// sleep: the result is `None`, and the sleep is over. Otherwise a
    /// message for `instant` goes to the sleeping thread, and the result is
    /// the future that it completes then.
    pub fn sleep_until(&self, instant: u64, now: u64) -> (r: Option<CompleteFuture>)
        ensures
            r is None <==> instant < now,
    {
        if instant < now {
            None
        } else {
            let complete_future = new_complete_future();
            let handle = complete_future_handle(&complete_future);
            let pushed = self.queue.try_push(SleepMessage::completing(instant, handle));
            assert(pushed is Ok);
            Some(complete_future)
        }
    }

    /// Starts a timeout of `time` nanoseconds from `start` for the future
    /// that `abort` aborts: the same as [`timeout_until`](Self::timeout_until)
    /// at `start + time`, where `now` is the clock read again when the
    /// timeout is started.
    pub fn timeout_for(&self, abort: AbortHandle, time: u64, start: u64, now: u64) -> (r: Result<
        (),
        (),
    >)
        requires
            start + time <= u64::MAX,
        ensures
            r is Err <==> start + time < now,
    {
        let end = start + time;
        self.timeout_until(abort, end, now)
    }

    /// Starts a timeout at `instant` for the future that `abort` aborts. An
    /// instant before `now` has passed already: the result is `Err(())`, the
    /// timeout, and the future is not to be run. Otherwise a message goes
    /// to the sleeping thread to abort the future at `instant`, and the
    /// result is `Ok(())`: run the future.
    pub fn timeout_until(&self, abort: AbortHandle, instant: u64, now: u64) -> (r: Result<(), ()>)
        ensures
            r is Err <==> instant < now,
    {
        if instant < now {
            Err(())
        } else {
            let pushed = self.queue.try_push(SleepMessage::aborting(instant, abort));
            assert(pushed is Ok);
            Ok(())
        }
    }
}

} // verus!
