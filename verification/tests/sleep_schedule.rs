use simple_futures::complete_future::CompleteFuture;
use single_executor::sleep_message::completion_outcome;
use single_executor::sleep_schedule::IDLE_WAIT_NANOS;
use single_executor::FireError;
use single_executor::SleepMessage;
use single_executor::SleepSchedule;
use single_executor::SleepStep;

fn message(deadline: u64, future: &CompleteFuture) -> SleepMessage {
    SleepMessage::completing(deadline, future.get_handle())
}

#[test]
fn empty_schedule_waits_a_second() {
    let mut schedule = SleepSchedule::new();
    assert_eq!(schedule.len(), 0);
    assert_eq!(schedule.next_deadline(), None);
    match schedule.step(5) {
        SleepStep::Wait { timeout } => assert_eq!(timeout, IDLE_WAIT_NANOS),
        SleepStep::Fired(_) => panic!("nothing to fire"),
    }
    assert_eq!(IDLE_WAIT_NANOS, 1_000_000_000);
    assert!(schedule.fire_due(u64::MAX).is_none());
}

#[test]
fn waits_until_the_earliest_deadline() {
    let a = CompleteFuture::new();
    let b = CompleteFuture::new();
    let mut schedule = SleepSchedule::new();
    schedule.receive(Some(message(300, &a)));
    schedule.receive(Some(message(100, &b)));
    schedule.receive(None);
    assert_eq!(schedule.len(), 2);
    assert_eq!(schedule.next_deadline(), Some(100));
    match schedule.step(40) {
        SleepStep::Wait { timeout } => assert_eq!(timeout, 60),
        SleepStep::Fired(_) => panic!("not due yet"),
    }
    assert_eq!(schedule.len(), 2);
}

#[test]
fn fires_in_deadline_order() {
    let futures: Vec<CompleteFuture> = (0..4).map(|_| CompleteFuture::new()).collect();
    let mut schedule = SleepSchedule::new();
    for (deadline, future) in [50u64, 10, 30, 10].iter().zip(futures.iter()) {
        schedule.receive(Some(message(*deadline, future)));
    }
    let mut fired = Vec::new();
    while let SleepStep::Fired(f) = schedule.step(1_000) {
        assert_eq!(f.outcome, Ok(()));
        fired.push(f.deadline);
    }
    assert_eq!(fired, vec![10, 10, 30, 50]);
    assert_eq!(schedule.len(), 0);
}

#[test]
fn fires_only_what_is_due() {
    let a = CompleteFuture::new();
    let b = CompleteFuture::new();
    let mut schedule = SleepSchedule::new();
    schedule.receive(Some(message(20, &a)));
    schedule.receive(Some(message(70, &b)));
    match schedule.step(20) {
        SleepStep::Fired(f) => {
            assert_eq!(f.deadline, 20);
            assert_eq!(f.outcome, Ok(()));
        }
        SleepStep::Wait { .. } => panic!("due at 20"),
    }
    assert!(a.complete(), "the due future was completed");
    assert!(!b.complete(), "the later future was not completed");
    assert!(schedule.fire_due(69).is_none());
    let fired = schedule.fire_due(70).expect("due at 70");
    assert_eq!(fired.deadline, 70);
    assert_eq!(fired.outcome, Err(FireError::AlreadyFinished));
}

#[test]
fn firing_a_dropped_future_is_fine() {
    let a = CompleteFuture::new();
    let mut schedule = SleepSchedule::new();
    schedule.receive(Some(message(1, &a)));
    drop(a);
    let fired = schedule.fire_due(1).expect("due");
    assert_eq!(fired.outcome, Ok(()));
}

#[test]
fn firing_an_abort_aborts() {
    let (future, abort) = futures::future::abortable(async { 7u8 });
    let mut schedule = SleepSchedule::new();
    schedule.receive(Some(SleepMessage::aborting(9, abort)));
    let fired = schedule.fire_due(9).expect("due");
    assert_eq!(fired.outcome, Ok(()));
    assert!(future.is_aborted());
}

#[test]
fn completion_outcomes() {
    assert_eq!(completion_outcome(None), Ok(()));
    assert_eq!(completion_outcome(Some(false)), Ok(()));
    assert_eq!(completion_outcome(Some(true)), Err(FireError::AlreadyFinished));
}

#[test]
fn messages_compare_by_deadline() {
    let a = CompleteFuture::new();
    let (_f, abort) = futures::future::abortable(async {});
    let early = message(5, &a);
    let late = SleepMessage::aborting(8, abort);
    let same = message(5, &a);
    assert!(early == same);
    assert!(early != late);
    assert!(early < late);
    assert!(early <= same);
    assert!(late > early);
    assert!(late >= early);
    assert_eq!(early.partial_cmp(&late), Some(std::cmp::Ordering::Less));
    assert_eq!(late.partial_cmp(&early), Some(std::cmp::Ordering::Greater));
    assert_eq!(early.partial_cmp(&same), Some(std::cmp::Ordering::Equal));
    assert_eq!(late.sleep_until(), 8);
}
