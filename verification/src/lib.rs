//! A single-threaded async executor, with a thread that wakes sleeping
//! futures at their deadlines.
use vstd::prelude::*;

pub mod async_task;
pub mod blocking;
pub mod executor;
pub mod executor_handle;
pub mod local_executor_handle;
pub mod multi_complete_future;
pub mod outside;
pub mod sleep_future;
pub mod sleep_message;
pub mod sleep_schedule;

pub use async_task::AsyncTask;
pub use executor::AsyncExecutor;
pub use executor_handle::SendExecutorHandle;
pub use local_executor_handle::LocalExecutorHandle;
pub use multi_complete_future::CompletionState;
pub use outside::SharedQueue;
pub use outside::WeakQueue;
pub use sleep_future::SleepFutureRunner;
pub use sleep_message::FireError;
pub use sleep_message::SleepMessage;
pub use sleep_message::SleepMessageFuture;
pub use sleep_schedule::SleepSchedule;
pub use sleep_schedule::SleepStep;

verus! {
} // verus!
