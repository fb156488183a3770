use concurrency_traits::queue::ParkQueue;
use concurrency_traits::queue::TryQueue;
use single_executor::executor::wake_task;
use single_executor::executor_handle::submit_to;
use single_executor::AsyncExecutor;
use single_executor::AsyncTask;
use single_executor::SharedQueue;
use std::sync::Arc;

fn shared<T>() -> SharedQueue<T> {
    SharedQueue { queue: Arc::new(ParkQueue::default()) }
}

#[test]
fn task_keeps_future_and_name() {
    let task = AsyncTask::new(7u32, String::from("seven"));
    assert_eq!(*task.future(), 7);
    assert_eq!(task.name(), "seven");
    let copy = task.clone();
    assert_eq!(*copy.future(), 7);
    assert_eq!(copy.name(), "seven");
}

#[test]
fn submit_puts_tasks_in_order() {
    let executor: AsyncExecutor<u32> = AsyncExecutor::new(shared());
    executor.submit(1, "one");
    executor.submit(2, String::from("two"));
    let queue = &executor.queue().queue;
    let first = queue.try_pop().expect("first task");
    let second = queue.try_pop().expect("second task");
    assert_eq!((*first.future(), first.name().as_str()), (1, "one"));
    assert_eq!((*second.future(), second.name().as_str()), (2, "two"));
    assert!(queue.try_pop().is_none());
}

#[test]
fn queue_from_takes_the_queue() {
    let executor: AsyncExecutor<u8> = AsyncExecutor::queue_from(shared());
    executor.submit(3, "three");
    assert_eq!(*executor.queue().queue.try_pop().unwrap().future(), 3);
}

#[test]
fn woken_task_goes_back() {
    let executor: AsyncExecutor<u8> = AsyncExecutor::new(shared());
    wake_task(executor.queue(), AsyncTask::new(9, String::from("nine")));
    let task = executor.queue().queue.try_pop().unwrap();
    assert_eq!(task.name(), "nine");
}

#[test]
fn handles_submit_while_the_executor_lives() {
    let executor: AsyncExecutor<u8> = AsyncExecutor::new(shared());
    let handle = executor.handle();
    let local = executor.local_handle();
    assert!(handle.submit(4, "four").is_ok());
    assert!(handle.clone().submit(5, "five").is_ok());
    assert!(local.submit(6, "six").is_ok());
    assert!(local.clone().submit(7, "seven").is_ok());
    let queue = &executor.queue().queue;
    let names: Vec<String> = (0..4).map(|_| queue.try_pop().unwrap().name().clone()).collect();
    assert_eq!(names, vec!["four", "five", "six", "seven"]);
}

#[test]
fn handles_give_back_after_the_executor_is_dropped() {
    let executor: AsyncExecutor<u8> = AsyncExecutor::new(shared());
    let handle = executor.handle();
    let local = executor.local_handle();
    drop(executor);
    assert_eq!(handle.submit(4, "four"), Err((4, "four")));
    assert_eq!(local.submit(5, String::from("five")), Err((5, String::from("five"))));
}

#[test]
fn submit_to_without_queue_gives_back() {
    assert_eq!(submit_to::<u8, &str>(None, 1, "one"), Err((1, "one")));
    let queue: SharedQueue<AsyncTask<u8>> = shared();
    let again = SharedQueue { queue: queue.queue.clone() };
    assert_eq!(submit_to(Some(again), 2, "two"), Ok(()));
    assert_eq!(queue.queue.try_pop().unwrap().name(), "two");
}
