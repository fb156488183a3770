//! The tasks that the executor runs.
use vstd::prelude::*;

verus! {

/// A task of the executor: a future and the name that it was submitted
/// under. `F` is the shared, type-erased cell that holds the future; the
/// executor never looks into it, it only passes tasks through its queue.
pub struct AsyncTask<F> {
    future: F,
    name: String,
}

impl<F> AsyncTask<F> {
    /// The future of the task.
    pub closed spec fn task_future(&self) -> F {
        self.future
    }

    /// The name of the task.
    pub closed spec fn task_name(&self) -> Seq<char> {
        self.name@
    }

    /// Creates a new async task.
    pub fn new(future: F, name: String) -> (r: AsyncTask<F>)
        ensures
            r.task_future() == future,
            r.task_name() == name@,
    {
        AsyncTask { future, name }
    }

    /// The name that the task was submitted under.
    pub fn name(&self) -> (r: &String)
        ensures
            r@ == self.task_name(),
    {
        &self.name
    }

    /// The future of the task.
    pub fn future(&self) -> (r: &F)
        ensures
            *r == self.task_future(),
    {
        &self.future
    }
}

impl<F: Clone> Clone for AsyncTask<F> {
    fn clone(&self) -> (r: Self)
        ensures
            call_ensures(F::clone, (&self.task_future(),), r.task_future()),
            r.task_name() == self.task_name(),
    {
        AsyncTask { future: self.future.clone(), name: self.name.clone() }
    }
}

} // verus!
