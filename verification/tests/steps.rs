use ws_transport::dispatch::{Action, DispatchError, Dispatcher, Event, Phase, Termination};
use ws_transport::failure::ReadFailure;
use ws_transport::frame::Frame;
use ws_transport::message::DispatchedMessage;

type Step = Result<Action<u32>, DispatchError>;

fn shutdown() -> Step {
    Ok(Action::Deliver(DispatchedMessage::ConnectionShutdown))
}

/// A dispatcher that has taken `events`, each of which must be accepted.
fn after(events: Vec<Event<u32>>) -> Dispatcher<u32> {
    let mut dispatcher = Dispatcher::new();
    for event in events {
        assert!(dispatcher.step(event).is_ok());
    }
    dispatcher
}

fn text(payload: &str) -> Event<u32> {
    Event::FrameRead(Frame::Text(String::from(payload)))
}

#[test]
fn a_new_dispatcher_is_reading() {
    let dispatcher = Dispatcher::<u32>::new();
    assert_eq!(dispatcher.phase(), Phase::Reading);
    assert_eq!(dispatcher.termination(), None);
}

#[test]
fn a_text_frame_goes_to_the_decoder() {
    let mut dispatcher = Dispatcher::<u32>::new();
    let step: Step = dispatcher.step(text("{\"id\":1}"));
    assert_eq!(step, Ok(Action::Decode(String::from("{\"id\":1}"))));
    assert_eq!(dispatcher.phase(), Phase::Decoding);
}

#[test]
fn an_empty_text_frame_goes_to_the_decoder() {
    let mut dispatcher = Dispatcher::<u32>::new();
    let step: Step = dispatcher.step(text(""));
    assert_eq!(step, Ok(Action::Decode(String::new())));
    assert_eq!(dispatcher.phase(), Phase::Decoding);
}

#[test]
fn a_decoded_message_goes_to_the_channel() {
    let mut dispatcher = after(vec![text("a")]);
    let step: Step = dispatcher.step(Event::Decoded(17));
    assert_eq!(step, Ok(Action::Deliver(DispatchedMessage::Message(17))));
    assert_eq!(dispatcher.phase(), Phase::Forwarding);
}

#[test]
fn an_unrecognized_text_is_dropped() {
    let mut dispatcher = after(vec![text("noise")]);
    let step: Step = dispatcher.step(Event::Unrecognized);
    assert_eq!(step, Ok(Action::Read));
    assert_eq!(dispatcher.phase(), Phase::Reading);
}

#[test]
fn a_delivered_message_is_followed_by_a_read() {
    let mut dispatcher = after(vec![text("a"), Event::Decoded(1)]);
    let step: Step = dispatcher.step(Event::Delivered);
    assert_eq!(step, Ok(Action::Read));
    assert_eq!(dispatcher.phase(), Phase::Reading);
}

#[test]
fn a_closed_channel_ends_the_reading() {
    let mut dispatcher = after(vec![text("a"), Event::Decoded(1)]);
    let step: Step = dispatcher.step(Event::ChannelClosed);
    assert_eq!(step, shutdown());
    assert_eq!(dispatcher.phase(), Phase::Notifying(Termination::ConsumerGone));
    let step: Step = dispatcher.step(Event::ChannelClosed);
    assert_eq!(step, Ok(Action::Stop(Termination::ConsumerGone)));
    assert_eq!(dispatcher.phase(), Phase::Finished(Termination::ConsumerGone));
    assert_eq!(dispatcher.termination(), Some(Termination::ConsumerGone));
}

#[test]
fn a_benign_failure_ends_the_stream() {
    for failure in [ReadFailure::NoDataAvailable, ReadFailure::IoError] {
        let mut dispatcher = Dispatcher::<u32>::new();
        let step: Step = dispatcher.step(Event::ReadFailed(failure));
        assert_eq!(step, shutdown());
        assert_eq!(dispatcher.phase(), Phase::Notifying(Termination::EndOfStream));
        let step: Step = dispatcher.step(Event::Delivered);
        assert_eq!(step, Ok(Action::Stop(Termination::EndOfStream)));
        assert_eq!(dispatcher.termination(), Some(Termination::EndOfStream));
    }
}

#[test]
fn any_other_failure_is_a_violation() {
    for failure in [
        ReadFailure::ProtocolError,
        ReadFailure::DataFrameError,
        ReadFailure::Utf8Error,
        ReadFailure::Other,
    ] {
        let mut dispatcher = Dispatcher::<u32>::new();
        let step: Step = dispatcher.step(Event::ReadFailed(failure));
        assert_eq!(step, shutdown());
        assert_eq!(
            dispatcher.phase(),
            Phase::Notifying(Termination::ProtocolViolation)
        );
        let step: Step = dispatcher.step(Event::Delivered);
        assert_eq!(step, Ok(Action::Stop(Termination::ProtocolViolation)));
        assert_eq!(
            dispatcher.termination(),
            Some(Termination::ProtocolViolation)
        );
    }
}

#[test]
fn a_frame_that_is_not_text_is_a_violation() {
    for frame in [Frame::Binary, Frame::Close, Frame::Ping, Frame::Pong] {
        let mut dispatcher = Dispatcher::<u32>::new();
        let step: Step = dispatcher.step(Event::FrameRead(frame));
        assert_eq!(step, shutdown());
        assert_eq!(
            dispatcher.phase(),
            Phase::Notifying(Termination::ProtocolViolation)
        );
    }
}

#[test]
fn a_failed_push_of_the_sentinel_is_swallowed() {
    let mut dispatcher = after(vec![Event::ReadFailed(ReadFailure::NoDataAvailable)]);
    let step: Step = dispatcher.step(Event::ChannelClosed);
    assert_eq!(step, Ok(Action::Stop(Termination::EndOfStream)));
    assert_eq!(dispatcher.phase(), Phase::Finished(Termination::EndOfStream));
}

#[test]
fn an_event_out_of_turn_is_refused_and_changes_nothing() {
    let mut reading = Dispatcher::<u32>::new();
    for event in [
        Event::Decoded(1),
        Event::Unrecognized,
        Event::Delivered,
        Event::ChannelClosed,
    ] {
        assert_eq!(reading.step(event), Err(DispatchError::UnexpectedEvent));
        assert_eq!(reading.phase(), Phase::Reading);
    }

    let mut decoding = after(vec![text("a")]);
    for event in [
        text("b"),
        Event::ReadFailed(ReadFailure::IoError),
        Event::Delivered,
        Event::ChannelClosed,
    ] {
        assert_eq!(decoding.step(event), Err(DispatchError::UnexpectedEvent));
        assert_eq!(decoding.phase(), Phase::Decoding);
    }

    let mut forwarding = after(vec![text("a"), Event::Decoded(1)]);
    for event in [
        text("b"),
        Event::ReadFailed(ReadFailure::IoError),
        Event::Decoded(2),
        Event::Unrecognized,
    ] {
        assert_eq!(forwarding.step(event), Err(DispatchError::UnexpectedEvent));
        assert_eq!(forwarding.phase(), Phase::Forwarding);
    }

    let mut notifying = after(vec![Event::FrameRead(Frame::Binary)]);
    for event in [
        text("b"),
        Event::ReadFailed(ReadFailure::IoError),
        Event::Decoded(2),
        Event::Unrecognized,
    ] {
        assert_eq!(notifying.step(event), Err(DispatchError::UnexpectedEvent));
        assert_eq!(
            notifying.phase(),
            Phase::Notifying(Termination::ProtocolViolation)
        );
    }
}

#[test]
fn a_finished_dispatcher_takes_nothing() {
    let mut dispatcher = after(vec![
        Event::ReadFailed(ReadFailure::NoDataAvailable),
        Event::Delivered,
    ]);
    for event in [
        text("late"),
        Event::ReadFailed(ReadFailure::IoError),
        Event::Decoded(3),
        Event::Unrecognized,
        Event::Delivered,
        Event::ChannelClosed,
    ] {
        assert_eq!(dispatcher.step(event), Err(DispatchError::AlreadyFinished));
        assert_eq!(dispatcher.phase(), Phase::Finished(Termination::EndOfStream));
    }
}
