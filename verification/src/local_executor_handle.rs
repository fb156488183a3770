//! A handle through which tasks can be submitted from the executor's own
//! thread.
use vstd::prelude::*;
use core::marker::PhantomData;
use std::rc::Rc;
use crate::async_task::AsyncTask;
use crate::executor_handle::submit_to;
use crate::outside::WeakQueue;

verus! {

/// A handle to an executor allowing submission of tasks. This handle may
/// not be sent across threads. It does not keep the executor alive.
#[verifier::reject_recursive_types(F)]
pub struct LocalExecutorHandle<F> {
    queue: WeakQueue<AsyncTask<F>>,
    /// Blocks `Send` and `Sync`.
    phantom_send_sync: PhantomData<Rc<()>>,
}

impl<F> LocalExecutorHandle<F> {
    /// The weak reference to the executor's queue that the handle holds.
    pub closed spec fn link(&self) -> WeakQueue<AsyncTask<F>> {
        self.queue
    }

    pub(crate) fn from_queue(queue: WeakQueue<AsyncTask<F>>) -> (r: Self)
        ensures
            r.link() == queue,
    {
        LocalExecutorHandle { queue, phantom_send_sync: PhantomData }
    }

    /// Submits a task to the executor this handle came from. Returns the
    /// future and the name unchanged in `Err` if the executor was dropped.
    pub fn submit<S: Into<String>>(&self, future: F, task_name: S) -> (r: Result<(), (F, S)>)
        ensures
            r matches Err(e) ==> e == (future, task_name),
    {
        submit_to(self.queue.upgrade(), future, task_name)
    }
}

impl<F> Clone for LocalExecutorHandle<F> {
    fn clone(&self) -> (r: Self) {
        LocalExecutorHandle { queue: self.queue.share(), phantom_send_sync: PhantomData }
    }
}

} // verus!
