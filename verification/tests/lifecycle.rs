use grpc_stream_template::lifecycle::Action;
use grpc_stream_template::lifecycle::Event;
use grpc_stream_template::lifecycle::FatalError;
use grpc_stream_template::lifecycle::Orchestrator;
use grpc_stream_template::lifecycle::Phase;
use grpc_stream_template::lifecycle::StreamOutcome;
use grpc_stream_template::message::InboundMessage;
use grpc_stream_template::message::Observation;

fn streaming() -> Orchestrator {
    let mut o = Orchestrator::new();
    assert_eq!(o.step(Event::Connected), Action::Subscribe);
    assert_eq!(o.step(Event::Subscribed), Action::StartStreaming);
    assert_eq!(o.phase, Phase::Streaming);
    o
}

#[test]
fn clean_close_terminates_gracefully_with_exit_zero() {
    let mut o = streaming();
    assert_eq!(o.step(Event::StreamEnded), Action::Shutdown);
    assert_eq!(o.phase, Phase::ShuttingDown);
    let last = o.step(Event::SessionReleased);
    assert_eq!(last, Action::ExitSuccess);
    assert_eq!(o.phase, Phase::Terminated);
    assert_eq!(o.outcome, Some(StreamOutcome::GracefullyEnded));
    assert_eq!(last.exit_code(), Some(0));
}

#[test]
fn cancel_before_any_message_dispatches_nothing() {
    let mut o = streaming();
    assert_eq!(o.step(Event::CancelRequested), Action::Shutdown);
    assert_eq!(o.step(Event::SessionReleased), Action::ExitSuccess);
    assert_eq!(o.phase, Phase::Terminated);
    assert_eq!(o.outcome, Some(StreamOutcome::Cancelled));
    assert_eq!(o.dispatched, 0);
}

#[test]
fn stream_error_wins_the_race_and_the_late_cancel_is_discarded() {
    let mut o = streaming();
    let details = "connection dropped".to_string();
    assert_eq!(o.step(Event::StreamErrored { details: details.clone() }), Action::Shutdown);
    assert_eq!(o.step(Event::CancelRequested), Action::Ignored);
    assert_eq!(o.step(Event::SessionReleased), Action::ExitSuccess);
    assert_eq!(o.phase, Phase::Terminated);
    assert_eq!(o.outcome, Some(StreamOutcome::TransportError { details }));
}

#[test]
fn messages_are_dispatched_in_order_and_counted() {
    let mut o = streaming();
    let a1 = o.step(Event::MessageArrived { message: InboundMessage::Empty });
    assert_eq!(a1, Action::Dispatch { observation: Observation::EmptyUpdate });
    let a2 = o.step(Event::MessageArrived { message: InboundMessage::Transaction { info: None } });
    assert_eq!(a2, Action::Dispatch { observation: Observation::MalformedTransaction });
    assert_eq!(o.phase, Phase::Streaming);
    assert_eq!(o.dispatched, 2);
}

#[test]
fn connect_failure_is_fatal_with_nonzero_exit() {
    let mut o = Orchestrator::new();
    let a = o.step(Event::ConnectFailed { details: "credential rejected".to_string() });
    assert_eq!(
        a,
        Action::ExitFailure {
            error: FatalError::Connection { details: "credential rejected".to_string() }
        }
    );
    assert_eq!(o.phase, Phase::Terminated);
    assert_ne!(a.exit_code(), Some(0));
    assert!(a.exit_code().is_some());
}

#[test]
fn subscribe_failure_is_fatal() {
    let mut o = Orchestrator::new();
    assert_eq!(o.step(Event::Connected), Action::Subscribe);
    let a = o.step(Event::SubscribeFailed { details: "sender closed".to_string() });
    assert_eq!(
        a,
        Action::ExitFailure {
            error: FatalError::Subscription { details: "sender closed".to_string() }
        }
    );
    assert_eq!(o.phase, Phase::Terminated);
    assert_ne!(a.exit_code(), Some(0));
}

#[test]
fn unexpected_events_are_ignored_without_a_state_change() {
    let mut o = Orchestrator::new();
    assert_eq!(
        o.step(Event::MessageArrived { message: InboundMessage::Empty }),
        Action::Ignored
    );
    assert_eq!(o.phase, Phase::Connecting);
    assert_eq!(o.dispatched, 0);
    assert_eq!(o.step(Event::SessionReleased), Action::Ignored);
    assert_eq!(o.phase, Phase::Connecting);
}
