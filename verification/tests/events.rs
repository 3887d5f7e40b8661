use exonum_dispatch::crypto::PublicKey;
use exonum_dispatch::events::internal::{InternalPart, Step, Task};
use exonum_dispatch::events::{
    Delay, Height, InternalEvent, InternalRequest, NodeTimeout, Round, TimeoutRequest, Timestamp,
};
use exonum_dispatch::messages::Message;
use futures::sync::mpsc;

fn signed_message() -> Message {
    Message { author: PublicKey::new([7; 32]), payload: vec![1, 2, 3] }
}

/// Runs one message through the scheduler: the request is taken up, the
/// signature check answers `checked`, and what is reported comes back.
fn verify_message(raw: Vec<u8>, checked: Option<Message>) -> Option<InternalEvent> {
    let (internal_tx, _internal_rx) = mpsc::channel::<InternalEvent>(16);
    let step = InternalPart::handle_request(&internal_tx, InternalRequest::VerifyMessage(raw.clone()), Timestamp(0));
    assert_eq!(step, Step { task: Some(Task::VerifyMessage(raw)), terminate: false });
    InternalPart::verify_message(checked)
}

#[test]
fn verify_msg() {
    let tx = signed_message();

    let expected_event = InternalEvent::message_verified(tx.clone());
    let event = verify_message(tx.payload.clone(), Some(tx));
    assert_eq!(event, Some(expected_event));
}

#[test]
fn verify_incorrect_msg() {
    let tx = signed_message();

    let event = verify_message(tx.payload, None);
    assert_eq!(event, None);
}

#[test]
fn timeout_in_the_past_fires_at_once() {
    let request = InternalRequest::Timeout(TimeoutRequest(Timestamp(1_000), NodeTimeout(5)));
    let step = InternalPart::decide(false, request, Timestamp(2_500));
    assert_eq!(
        step,
        Step { task: Some(Task::EmitAfter(Delay(0), InternalEvent::Timeout(NodeTimeout(5)))), terminate: false }
    );
}

#[test]
fn timeout_now_fires_at_once() {
    assert_eq!(Timestamp(77).delay_from(Timestamp(77)), Delay(0));
}

#[test]
fn timeout_waits_for_what_is_left() {
    let request = InternalRequest::Timeout(TimeoutRequest(Timestamp(5_000_000_123), NodeTimeout(9)));
    let step = InternalPart::decide(false, request, Timestamp(2_000_000_100));
    assert_eq!(
        step,
        Step {
            task: Some(Task::EmitAfter(Delay(3_000_000_023), InternalEvent::Timeout(NodeTimeout(9)))),
            terminate: false
        }
    );
    assert_eq!(Timestamp(u128::MAX).delay_from(Timestamp(0)), Delay(u128::MAX));
    assert_eq!(Timestamp(0).delay_from(Timestamp(u128::MAX)), Delay(0));
}

#[test]
fn control_requests_are_sent_on() {
    assert_eq!(
        InternalPart::decide(false, InternalRequest::JumpToRound(Height(3), Round(2)), Timestamp(0)),
        Step { task: Some(Task::Emit(InternalEvent::JumpToRound(Height(3), Round(2)))), terminate: false }
    );
    assert_eq!(
        InternalPart::decide(false, InternalRequest::RestartApi, Timestamp(0)),
        Step { task: Some(Task::RestartApi), terminate: false }
    );
}

#[test]
fn shutdown_is_sent_on_and_ends_the_loop() {
    let step = InternalPart::decide(false, InternalRequest::Shutdown, Timestamp(0));
    assert_eq!(step, Step { task: Some(Task::Emit(InternalEvent::Shutdown)), terminate: true });
    assert!(!InternalPart::goes_on(step.terminate, true));
}

#[test]
fn closed_output_ends_the_loop() {
    let requests = vec![
        InternalRequest::VerifyMessage(vec![1]),
        InternalRequest::Timeout(TimeoutRequest(Timestamp(9), NodeTimeout(1))),
        InternalRequest::JumpToRound(Height(1), Round(1)),
        InternalRequest::Shutdown,
        InternalRequest::RestartApi,
    ];
    for request in requests {
        let step = InternalPart::decide(true, request, Timestamp(3));
        assert_eq!(step, Step { task: None, terminate: true });
        assert!(!InternalPart::goes_on(step.terminate, true));
    }
}

#[test]
fn dropped_receiver_ends_the_loop() {
    let (internal_tx, internal_rx) = mpsc::channel::<InternalEvent>(16);
    let step = InternalPart::handle_request(&internal_tx, InternalRequest::Shutdown, Timestamp(0));
    assert_eq!(step, Step { task: Some(Task::Emit(InternalEvent::Shutdown)), terminate: true });

    drop(internal_rx);
    let step = InternalPart::handle_request(&internal_tx, InternalRequest::VerifyMessage(vec![1]), Timestamp(0));
    assert_eq!(step, Step { task: None, terminate: true });
}

#[test]
fn closed_receiver_ends_the_loop() {
    let (internal_tx, mut internal_rx) = mpsc::channel::<InternalEvent>(16);
    internal_rx.close();
    let step = InternalPart::handle_request(&internal_tx, InternalRequest::JumpToRound(Height(1), Round(1)), Timestamp(0));
    assert_eq!(step, Step { task: None, terminate: true });
}

#[test]
fn lost_task_does_not_end_the_loop() {
    let step = InternalPart::decide(false, InternalRequest::RestartApi, Timestamp(0));
    assert!(InternalPart::goes_on(step.terminate, false));
    assert!(InternalPart::goes_on(step.terminate, true));
}

#[test]
fn event_constructors() {
    assert_eq!(InternalEvent::timeout(NodeTimeout(4)), InternalEvent::Timeout(NodeTimeout(4)));
    assert_eq!(
        InternalEvent::jump_to_round(Height(8), Round(1)),
        InternalEvent::JumpToRound(Height(8), Round(1))
    );
    assert_eq!(InternalEvent::shutdown(), InternalEvent::Shutdown);
}

#[test]
fn clock_before_the_epoch_stands_at_it() {
    assert_eq!(Timestamp::since_epoch(None), Timestamp(0));
    assert_eq!(Timestamp::since_epoch(Some(1_500_000_000_123)), Timestamp(1_500_000_000_123));
}

#[test]
fn delay_splits_into_seconds_and_nanoseconds() {
    assert_eq!(Delay(0).secs_and_nanos(), (0, 0));
    assert_eq!(Delay(999_999_999).secs_and_nanos(), (0, 999_999_999));
    assert_eq!(Delay(3_000_000_023).secs_and_nanos(), (3, 23));
    let longest = u128::from(u64::MAX) * 1_000_000_000 + 999_999_999;
    assert_eq!(Delay(longest).secs_and_nanos(), (u64::MAX, 999_999_999));
    assert_eq!(Delay(longest + 1).secs_and_nanos(), (u64::MAX, 999_999_999));
    assert_eq!(Delay(u128::MAX).secs_and_nanos(), (u64::MAX, 999_999_999));
}
