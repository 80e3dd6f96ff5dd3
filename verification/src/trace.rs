//! Whole runs of the dispatch worker: what the consumer channel has received
//! after a sequence of events, and what holds of every such run.

use vstd::prelude::*;
use crate::dispatch::{
    accepts, advance, advance_keeps_coherent, coherent, fresh, next_phase, response,
    taken_before_sentinel, termination_for, Action, Event, Phase, Session, Termination,
};
use crate::failure::{classification, ReadFailure};
use crate::frame::Frame;
use crate::message::{
    messages_only, sentinel_at_most_once_and_last, sentinel_last, DispatchedMessage,
};

verus! {

/// The session after `events`, taken in order from `session`.
pub open spec fn replay<M>(session: Session<M>, events: Seq<Event<M>>) -> Session<M>
    decreases events.len(),
{
    if events.len() == 0 {
        session
    } else {
        advance(replay(session, events.drop_last()), events.last())
    }
}

/// One text frame arriving at a worker whose consumer is listening: its text,
/// and the message that the decoder makes of it, if any.
pub struct Arrival<M> {
    pub text: String,
    pub decoded: Option<M>,
}

/// The events that one arrival amounts to: the frame is read and decoded, and
/// if it was recognised the channel takes the message.
pub open spec fn arrival_events<M>(arrival: Arrival<M>) -> Seq<Event<M>> {
    match arrival.decoded {
        Some(message) => seq![
            Event::FrameRead(Frame::Text(arrival.text)),
            Event::Decoded(message),
            Event::Delivered,
        ],
        None => seq![Event::FrameRead(Frame::Text(arrival.text)), Event::Unrecognized],
    }
}

/// The events of a sequence of arrivals, one after the other.
pub open spec fn arrivals_events<M>(arrivals: Seq<Arrival<M>>) -> Seq<Event<M>>
    decreases arrivals.len(),
{
    if arrivals.len() == 0 {
        Seq::empty()
    } else {
        arrivals_events(arrivals.drop_last()) + arrival_events(arrivals.last())
    }
}

/// The messages of the arrivals that the decoder recognised, in order.
pub open spec fn recognized<M>(arrivals: Seq<Arrival<M>>) -> Seq<DispatchedMessage<M>>
    decreases arrivals.len(),
{
    if arrivals.len() == 0 {
        Seq::empty()
    } else {
        let before = recognized(arrivals.drop_last());
        match arrivals.last().decoded {
            Some(message) => before.push(DispatchedMessage::Message(message)),
            None => before,
        }
    }
}

/// Arrivals that the decoder recognises one and all: frame `i` has the text
/// `texts[i]` and decodes to `messages[i]`.
pub open spec fn valid_frames<M>(texts: Seq<String>, messages: Seq<M>) -> Seq<Arrival<M>> {
    Seq::new(messages.len(), |i: int| Arrival { text: texts[i], decoded: Some(messages[i]) })
}

/// How a read that fails, with a consumer that still listens, ends a run: the
/// failure is reported, and the channel takes the sentinel.
pub open spec fn closing<M>(failure: ReadFailure) -> Seq<Event<M>> {
    seq![Event::ReadFailed(failure), Event::Delivered]
}

/// Replaying one more event advances the session reached before it.
pub proof fn replay_push<M>(session: Session<M>, events: Seq<Event<M>>, event: Event<M>)
    ensures
        replay(session, events.push(event)) == advance(replay(session, events), event),
{
    assert(events.push(event).drop_last() =~= events);
}

/// Replaying two sequences in a row is replaying the first and then, from
/// where that ended, the second.
pub proof fn replay_concat<M>(session: Session<M>, first: Seq<Event<M>>, second: Seq<Event<M>>)
    ensures
        replay(session, first + second) == replay(replay(session, first), second),
    decreases second.len(),
{
    if second.len() > 0 {
        replay_concat(session, first, second.drop_last());
        assert((first + second).drop_last() =~= first + second.drop_last());
    }
}

/// A run from a coherent session ends in a coherent session.
pub proof fn replay_keeps_coherent<M>(session: Session<M>, events: Seq<Event<M>>)
    requires
        coherent(session),
    ensures
        coherent(replay(session, events)),
    decreases events.len(),
{
    if events.len() > 0 {
        replay_keeps_coherent(session, events.drop_last());
        advance_keeps_coherent(replay(session, events.drop_last()), events.last());
    }
}

/// In a coherent session the sentinel has been pushed exactly when reading
/// has ended, and then once, as the last item pushed; and the channel has
/// received it at most once, as the last item received.
pub proof fn sentinel_is_single_and_last<M>(session: Session<M>)
    requires
        coherent(session),
    ensures
        sentinel_at_most_once_and_last(session.offered),
        sentinel_at_most_once_and_last(session.received),
        (session.phase is Notifying || session.phase is Finished) <==> sentinel_last(
            session.offered,
        ),
        !(session.phase is Finished) ==> messages_only(session.received),
{
    let offered = session.offered;
    if sentinel_last(offered) {
        assert(forall|i: int| 0 <= i < offered.len() - 1 ==> offered[i] == offered.drop_last()[i]);
    }
    match session.phase {
        Phase::Notifying(reason) | Phase::Finished(reason) => {
            messages_before_sentinel(offered, reason);
        },
        _ => {},
    }
}

/// What the channel took before the sentinel holds no sentinel.
proof fn messages_before_sentinel<M>(offered: Seq<DispatchedMessage<M>>, reason: Termination)
    requires
        sentinel_last(offered),
        reason is ConsumerGone ==> offered.len() >= 2,
    ensures
        messages_only(taken_before_sentinel(offered, reason)),
{
}

/// Every run of a worker, whatever the events: the channel receives the
/// sentinel at most once, and nothing after it.
pub proof fn every_run_delivers_sentinel_at_most_once_and_last<M>(events: Seq<Event<M>>)
    ensures
        coherent(replay(fresh::<M>(), events)),
        sentinel_at_most_once_and_last(replay(fresh::<M>(), events).received),
        replay(fresh::<M>(), events).phase is Finished ==> sentinel_last(
            replay(fresh::<M>(), events).offered,
        ),
{
    replay_keeps_coherent(fresh::<M>(), events);
    sentinel_is_single_and_last(replay(fresh::<M>(), events));
}

/// A finished worker takes no event: whatever is reported to it, the session
/// stays as it is, and so nothing is pushed or received after the end.
pub proof fn finished_is_final<M>(session: Session<M>, events: Seq<Event<M>>)
    requires
        session.phase is Finished,
    ensures
        replay(session, events) == session,
    decreases events.len(),
{
    if events.len() > 0 {
        finished_is_final(session, events.drop_last());
    }
}

/// What the channel has received is never taken back or reordered: after any
/// further events it still begins with what it held before.
pub proof fn received_only_grows<M>(session: Session<M>, events: Seq<Event<M>>)
    ensures
        session.received.is_prefix_of(replay(session, events).received),
        session.offered.is_prefix_of(replay(session, events).offered),
    decreases events.len(),
{
    if events.len() > 0 {
        received_only_grows(session, events.drop_last());
    }
}

/// The ordering guarantee: a consumer that stayed until the end and received
/// the sentinel has received, before it, every message that the worker pushed.
pub proof fn messages_precede_the_sentinel<M>(session: Session<M>)
    requires
        coherent(session),
        session.phase is Finished,
        session.phase != Phase::Finished(Termination::ConsumerGone),
        sentinel_last(session.received),
    ensures
        session.received == session.offered,
{
    let front = session.offered.drop_last();
    if session.received == front {
        // Impossible: what precedes the sentinel holds messages only.
        assert(front[front.len() - 1] is Message);
    } else {
        assert(front.push(DispatchedMessage::ConnectionShutdown) =~= session.offered);
    }
}

/// Text frames that arrive while the worker reads leave it reading, and the
/// channel has received, after what it held before, exactly the messages of
/// the frames that the decoder recognised, in order of arrival.  A frame that
/// the decoder does not recognise leaves no trace.
pub proof fn arrivals_keep_reading<M>(session: Session<M>, arrivals: Seq<Arrival<M>>)
    requires
        session.phase is Reading,
    ensures
        replay(session, arrivals_events(arrivals)) == (Session {
            phase: Phase::Reading,
            offered: session.offered + recognized(arrivals),
            received: session.received + recognized(arrivals),
        }),
    decreases arrivals.len(),
{
    if arrivals.len() > 0 {
        let front = arrivals.drop_last();
        let last = arrivals.last();
        arrivals_keep_reading(session, front);
        replay_concat(session, arrivals_events(front), arrival_events(last));
        let reading = replay(session, arrivals_events(front));
        let read = Event::<M>::FrameRead(Frame::Text(last.text));
        match last.decoded {
            Some(message) => {
                let decoded = Event::Decoded(message);
                let delivered = Event::<M>::Delivered;
                assert(arrival_events(last) == seq![read].push(decoded).push(delivered));
                replay_push(reading, seq![read].push(decoded), delivered);
                replay_push(reading, seq![read], decoded);
                replay_push(reading, Seq::empty(), read);
            },
            None => {
                let unrecognized = Event::<M>::Unrecognized;
                assert(arrival_events(last) == seq![read].push(unrecognized));
                replay_push(reading, seq![read], unrecognized);
                replay_push(reading, Seq::empty(), read);
            },
        }
    }
}

/// A read that fails while the consumer listens ends the run: the channel
/// receives the sentinel after what it held, and the worker has finished, for
/// the reason that the class of the failure gives.
pub proof fn failed_read_closes<M>(session: Session<M>, failure: ReadFailure)
    requires
        session.phase is Reading,
    ensures
        replay(session, closing(failure)) == (Session {
            phase: Phase::Finished(termination_for(classification(failure))),
            offered: session.offered.push(DispatchedMessage::ConnectionShutdown),
            received: session.received.push(DispatchedMessage::ConnectionShutdown),
        }),
{
    let failed = Event::<M>::ReadFailed(failure);
    let delivered = Event::<M>::Delivered;
    assert(closing::<M>(failure) == seq![failed].push(delivered));
    replay_push(session, seq![failed], delivered);
    replay_push(session, Seq::empty(), failed);
}

/// Text frames, recognised or not, followed by a failed read: the channel
/// receives the messages of the recognised frames in order of arrival, then
/// the sentinel, and nothing else; the unrecognised frames leave no gap and
/// no second sentinel.
pub proof fn unrecognized_frames_are_dropped<M>(arrivals: Seq<Arrival<M>>, failure: ReadFailure)
    ensures
        ({
            let end = replay(fresh::<M>(), arrivals_events(arrivals) + closing(failure));
            &&& end.phase == Phase::Finished(termination_for(classification(failure)))
            &&& end.received == recognized(arrivals).push(DispatchedMessage::ConnectionShutdown)
            &&& end.offered == end.received
        }),
{
    let start = fresh::<M>();
    replay_concat(start, arrivals_events(arrivals), closing(failure));
    arrivals_keep_reading(start, arrivals);
    failed_read_closes(replay(start, arrivals_events(arrivals)), failure);
}

/// Of arrivals that are all recognised, the recognised messages are the
/// decoded messages themselves.
proof fn valid_frames_are_recognized<M>(texts: Seq<String>, messages: Seq<M>)
    requires
        texts.len() == messages.len(),
    ensures
        recognized(valid_frames(texts, messages)) == messages.map_values(
            |message: M| DispatchedMessage::Message(message),
        ),
    decreases messages.len(),
{
    if messages.len() > 0 {
        valid_frames_are_recognized(texts.drop_last(), messages.drop_last());
        assert(valid_frames(texts, messages).drop_last() =~= valid_frames(
            texts.drop_last(),
            messages.drop_last(),
        ));
    }
}

/// Any number of valid text frames followed by the peer closing: the channel
/// receives exactly the decoded messages, in order, then exactly one
/// sentinel, and nothing after; the worker has finished.
pub proof fn valid_frames_then_close<M>(texts: Seq<String>, messages: Seq<M>, failure: ReadFailure)
    requires
        texts.len() == messages.len(),
    ensures
        ({
            let events = arrivals_events(valid_frames(texts, messages)) + closing(failure);
            let end = replay(fresh::<M>(), events);
            &&& end.phase == Phase::Finished(termination_for(classification(failure)))
            &&& end.received == messages.map_values(
                |message: M| DispatchedMessage::Message(message),
            ).push(DispatchedMessage::ConnectionShutdown)
            &&& forall|more: Seq<Event<M>>| #[trigger] replay(end, more) == end
        }),
{
    let arrivals = valid_frames(texts, messages);
    let end = replay(fresh::<M>(), arrivals_events(arrivals) + closing(failure));
    unrecognized_frames_are_dropped(arrivals, failure);
    valid_frames_are_recognized(texts, messages);
    assert forall|more: Seq<Event<M>>| #[trigger] replay(end, more) == end by {
        finished_is_final(end, more);
    }
}

/// A read that fails while the worker waits for a frame, as it does once the
/// connection is shut down locally, makes the worker push the sentinel; the
/// listening consumer receives it, exactly once and as the last item, and the
/// worker has finished.
pub proof fn failed_read_ends_dispatch<M>(session: Session<M>, failure: ReadFailure)
    requires
        coherent(session),
        session.phase is Reading,
    ensures
        response(session.phase, Event::<M>::ReadFailed(failure)) == Action::<M>::Deliver(
            DispatchedMessage::ConnectionShutdown,
        ),
        ({
            let end = replay(session, closing(failure));
            &&& end.phase is Finished
            &&& end.received == session.received.push(DispatchedMessage::ConnectionShutdown)
            &&& sentinel_last(end.received)
        }),
{
    failed_read_closes(session, failure);
    assert(session.received.push(DispatchedMessage::ConnectionShutdown).drop_last()
        =~= session.received);
}

/// Once the channel has no receiver for a message, the worker reads no more:
/// it pushes the sentinel, stops on the answer to that push whichever it is,
/// and whatever else is reported it pushes nothing further.  The consumer
/// receives nothing more, unless it be that sentinel.
pub proof fn closed_channel_ends_dispatch<M>(session: Session<M>, events: Seq<Event<M>>)
    requires
        session.phase is Forwarding,
    ensures
        ({
            let closed = Event::<M>::ChannelClosed;
            let notifying = Phase::Notifying(Termination::ConsumerGone);
            let finished = Phase::Finished(Termination::ConsumerGone);
            let end = replay(advance(session, closed), events);
            &&& response(session.phase, closed) == Action::<M>::Deliver(
                DispatchedMessage::ConnectionShutdown,
            )
            &&& advance(session, closed).phase == notifying
            &&& forall|event: Event<M>| #[trigger]
                accepts(notifying, event) ==> {
                    &&& response(notifying, event) == Action::<M>::Stop(Termination::ConsumerGone)
                    &&& next_phase(notifying, event) == finished
                }
            &&& (end.phase == notifying || end.phase == finished)
            &&& end.offered == session.offered.push(DispatchedMessage::ConnectionShutdown)
            &&& (end.received == session.received || (end.phase == finished && end.received
                == session.received.push(DispatchedMessage::ConnectionShutdown)))
        }),
    decreases events.len(),
{
    if events.len() > 0 {
        closed_channel_ends_dispatch(session, events.drop_last());
    }
}

} // verus!
