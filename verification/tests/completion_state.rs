use single_executor::CompletionState;

#[test]
fn pending_polls_register_wakers_in_order() {
    let mut state: CompletionState<u8> = CompletionState::new();
    assert!(!state.finished());
    assert!(!state.poll(1));
    assert!(!state.poll(2));
    assert!(!state.poll(3));
    let (was, wakers) = state.complete();
    assert!(!was);
    assert_eq!(wakers, vec![1, 2, 3]);
    assert!(state.finished());
}

#[test]
fn completion_is_final() {
    let mut state: CompletionState<u8> = CompletionState::new();
    let (was, wakers) = state.complete();
    assert!(!was);
    assert!(wakers.is_empty());
    assert!(state.poll(4));
    let (was, wakers) = state.complete();
    assert!(was);
    assert!(wakers.is_empty());
}
