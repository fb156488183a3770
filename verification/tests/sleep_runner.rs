use concurrency_traits::queue::ParkQueue;
use concurrency_traits::queue::TryQueue;
use single_executor::SharedQueue;
use single_executor::SleepFutureRunner;
use single_executor::SleepSchedule;
use single_executor::SleepStep;
use std::sync::Arc;

fn runner() -> SleepFutureRunner {
    SleepFutureRunner::from_queue(SharedQueue { queue: Arc::new(ParkQueue::default()) })
}

#[test]
fn sleep_in_the_past_is_over_at_once() {
    let runner = runner();
    assert!(runner.sleep_until(10, 11).is_none());
    assert!(runner.queue().queue.try_pop().is_none());
}

#[test]
fn sleep_sends_a_message_with_its_deadline() {
    let runner = runner();
    let future = runner.sleep_until(10, 10).expect("a sleep until now is queued");
    let message = runner.queue().queue.try_pop().expect("a message");
    assert_eq!(message.sleep_until(), 10);
    let mut schedule = SleepSchedule::new();
    schedule.receive(Some(message));
    match schedule.step(10) {
        SleepStep::Fired(f) => assert_eq!(f.outcome, Ok(())),
        SleepStep::Wait { .. } => panic!("due"),
    }
    assert!(future.complete(), "the sleeping future was completed");
}

#[test]
fn sleep_for_adds_the_duration() {
    let runner = runner();
    assert!(runner.sleep_for(5, 100, 100).is_some());
    assert_eq!(runner.queue().queue.try_pop().unwrap().sleep_until(), 105);
    assert!(runner.sleep_for(0, 100, 101).is_none());
    assert!(runner.queue().queue.try_pop().is_none());
}

#[test]
fn timeouts() {
    let runner = runner();
    let (_f, abort) = futures::future::abortable(async {});
    assert_eq!(runner.timeout_until(abort, 3, 4), Err(()));
    assert!(runner.queue().queue.try_pop().is_none());
    let (f, abort) = futures::future::abortable(async {});
    assert_eq!(runner.timeout_for(abort, 20, 10, 15), Ok(()));
    let message = runner.queue().queue.try_pop().unwrap();
    assert_eq!(message.sleep_until(), 30);
    assert_eq!(message.fire(), Ok(()));
    assert!(f.is_aborted());
}
