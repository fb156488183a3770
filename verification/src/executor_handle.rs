//! A handle through which tasks can be submitted from any thread.
use vstd::prelude::*;
use crate::async_task::AsyncTask;
use crate::executor::push_task;
use crate::outside::SharedQueue;
use crate::outside::WeakQueue;

verus! {

/// A handle to an executor allowing submission of tasks. It does not keep
/// the executor alive.
#[verifier::reject_recursive_types(F)]
pub struct SendExecutorHandle<F> {
    queue: WeakQueue<AsyncTask<F>>,
}

impl<F> SendExecutorHandle<F> {
    /// The weak reference to the executor's queue that the handle holds.
    pub closed spec fn link(&self) -> WeakQueue<AsyncTask<F>> {
        self.queue
    }

    pub(crate) fn from_queue(queue: WeakQueue<AsyncTask<F>>) -> (r: Self)
        ensures
            r.link() == queue,
    {
        SendExecutorHandle { queue }
    }

    /// Submits a task to the executor this handle came from. Returns the
    /// future and the name unchanged in `Err` if the executor was dropped.
    pub fn submit<S: Into<String>>(&self, future: F, task_name: S) -> (r: Result<(), (F, S)>)
        ensures
            r matches Err(e) ==> e == (future, task_name),
    {
        submit_to(self.queue.upgrade(), future, task_name)
    }
}

impl<F> Clone for SendExecutorHandle<F> {
    fn clone(&self) -> (r: Self) {
        SendExecutorHandle { queue: self.queue.share() }
    }
}

/// Submits a task to `queue`, the executor's queue if the executor is still
/// alive: pushes it and returns `Ok` when there is a queue, else hands the
/// future and the name back in `Err`.
pub fn submit_to<F, S: Into<String>>(
    queue: Option<SharedQueue<AsyncTask<F>>>,
    future: F,
    task_name: S,
) -> (r: Result<(), (F, S)>)
    ensures
        r is Ok <==> queue is Some,
        r matches Err(e) ==> e == (future, task_name),
{
    match queue {
        None => Err((future, task_name)),
        Some(queue) => {
            push_task(&queue, future, task_name);
            Ok(())
        },
    }
}

} // verus!
