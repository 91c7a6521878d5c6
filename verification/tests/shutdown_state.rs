use calandria::{
    NonZeroCount, RequestFailure, RequestSuccess, ShutdownPhase, ShutdownState, SubscribeStep,
};

fn count(value: usize) -> NonZeroCount {
    NonZeroCount::new(value).expect("test counts are nonzero")
}

#[test]
fn first_subscriber_publishes_and_others_wait() {
    let mut state = ShutdownState::new(count(2));
    assert_eq!(state.subscribe(1), SubscribeStep::PublishRequest(1));
    assert_eq!(state.phase(), ShutdownPhase::Requesting);
    assert_eq!(state.subscribe(2), SubscribeStep::Wait(2));
    assert_eq!(state.finish_request_success(1), RequestSuccess::Admitted);
    assert_eq!(state.phase(), ShutdownPhase::Requested);
    assert_eq!(state.subscribe(2), SubscribeStep::Admitted);
    assert_eq!(state.subscribe(3), SubscribeStep::Full(3));
    assert_eq!(state.retained(), 2);
    assert_eq!(state.settle(true), vec![1, 2]);
    assert_eq!(state.phase(), ShutdownPhase::Completed);
    assert_eq!(state.subscribe(4), SubscribeStep::CompleteNow(4));
    assert_eq!(state.settle(false), Vec::<i32>::new());
    assert_eq!(state.phase(), ShutdownPhase::Completed);
}

#[test]
fn failed_request_reopens_for_one_retry() {
    let mut state: ShutdownState<u8> = ShutdownState::new(count(2));
    assert_eq!(state.subscribe(1), SubscribeStep::PublishRequest(1));
    assert_eq!(state.finish_request_failure(), RequestFailure::Reopened);
    assert_eq!(state.phase(), ShutdownPhase::Open);
    assert_eq!(state.subscribe(2), SubscribeStep::PublishRequest(2));
    assert_eq!(state.finish_request_success(2), RequestSuccess::Admitted);
    assert_eq!(state.capacity(), 2);
}

#[test]
fn closing_rejects_and_releases() {
    let mut state: ShutdownState<u8> = ShutdownState::new(count(1));
    assert_eq!(state.subscribe(1), SubscribeStep::PublishRequest(1));
    assert_eq!(state.settle(false), Vec::<u8>::new());
    assert_eq!(state.phase(), ShutdownPhase::Closed);
    assert_eq!(state.finish_request_success(1), RequestSuccess::Closed(1));
    assert_eq!(state.finish_request_failure(), RequestFailure::Closed);
    assert_eq!(state.subscribe(2), SubscribeStep::Closed(2));
}

#[test]
fn completion_during_request_answers_the_requester() {
    let mut state: ShutdownState<u8> = ShutdownState::new(count(1));
    assert_eq!(state.subscribe(1), SubscribeStep::PublishRequest(1));
    assert_eq!(state.settle(true), Vec::<u8>::new());
    assert_eq!(state.finish_request_success(1), RequestSuccess::Completed(1));
    assert_eq!(state.finish_request_failure(), RequestFailure::Completed);
}

#[test]
fn abandoned_request_reopens() {
    let mut state: ShutdownState<u8> = ShutdownState::new(count(1));
    assert_eq!(state.subscribe(1), SubscribeStep::PublishRequest(1));
    state.abort_request();
    assert_eq!(state.phase(), ShutdownPhase::Open);
    state.abort_request();
    assert_eq!(state.phase(), ShutdownPhase::Open);
}
