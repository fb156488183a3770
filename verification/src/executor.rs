//! The executor: a queue of tasks, and the ways to put tasks into it.
use vstd::prelude::*;
use core::marker::PhantomData;
use std::rc::Rc;
use crate::async_task::AsyncTask;
use crate::executor_handle::SendExecutorHandle;
use crate::local_executor_handle::LocalExecutorHandle;
use crate::outside::SharedQueue;

verus! {

/// An asynchronous executor that can be used to run multiple async tasks.
/// Tasks wait in a shared queue; a woken task is put back into it. Running
/// the tasks (polling their futures) is left to the caller's loop.
///
/// The executor may not be sent across threads.
#[verifier::reject_recursive_types(F)]
pub struct AsyncExecutor<F> {
    task_queue: SharedQueue<AsyncTask<F>>,
    /// Blocks `Send` and `Sync`.
    phantom_send_sync: PhantomData<Rc<()>>,
}

impl<F> AsyncExecutor<F> {
    /// The queue that the executor's tasks wait in.
    pub closed spec fn spec_queue(&self) -> SharedQueue<AsyncTask<F>> {
        self.task_queue
    }

    /// Creates a new executor from a given queue.
    pub fn new(task_queue: SharedQueue<AsyncTask<F>>) -> (r: Self)
        ensures
            r.spec_queue() == task_queue,
    {
        AsyncExecutor { task_queue, phantom_send_sync: PhantomData }
    }

    /// Creates a new executor from the queue's `From<T>` implementation.
    pub fn queue_from<T>(from: T) -> (r: Self) where SharedQueue<AsyncTask<F>>: From<T>
        ensures
            call_ensures(SharedQueue::<AsyncTask<F>>::from, (from,), r.spec_queue()),
    {
        Self::new(SharedQueue::<AsyncTask<F>>::from(from))
    }

    /// The queue that the executor's tasks wait in.
    pub fn queue(&self) -> (r: &SharedQueue<AsyncTask<F>>)
        ensures
            *r == self.spec_queue(),
    {
        &self.task_queue
    }

    /// Gets a handle to the executor through which tasks can be submitted.
    pub fn handle(&self) -> (r: SendExecutorHandle<F>) {
        SendExecutorHandle::from_queue(self.task_queue.downgrade())
    }

    /// Gets a handle to the executor through which tasks can be submitted.
    /// This handle may not be sent across threads.
    pub fn local_handle(&self) -> (r: LocalExecutorHandle<F>) {
        LocalExecutorHandle::from_queue(self.task_queue.downgrade())
    }

    /// Adds a new task to the executor, under the given name. The queue
    /// always takes it, so this never fails.
    pub fn submit<S: Into<String>>(&self, future: F, task_name: S) {
        push_task(&self.task_queue, future, task_name)
    }
}

/// Puts a task made of `future` and `task_name` at the back of `queue`.
/// The queue always accepts it.
pub fn push_task<F, S: Into<String>>(queue: &SharedQueue<AsyncTask<F>>, future: F, task_name: S) {
    let task = AsyncTask::new(future, task_name.into());
    let pushed = queue.try_push(task);
    assert(pushed is Ok);
}

/// Wakes `task`: puts it back at the back of `queue`, to be polled again.
/// The queue always accepts it.
pub fn wake_task<F>(queue: &SharedQueue<AsyncTask<F>>, task: AsyncTask<F>) {
    let pushed = queue.try_push(task);
    assert(pushed is Ok);
}

} // verus!
