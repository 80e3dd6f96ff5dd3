//! The inbound dispatch worker as a state machine.
//!
//! The worker alternates between outside work (reading the socket, asking the
//! decoder, pushing onto the consumer channel) and decisions.  The decisions
//! live here: [`Dispatcher::step`] takes what the outside work produced and
//! says what to do next.  The worker starts by reading, so the action that is
//! pending on a fresh dispatcher is [`Action::Read`].

use vstd::prelude::*;
use crate::failure::{classification, ErrorClassification, ReadFailure};
use crate::frame::Frame;
use crate::message::{messages_only, sentinel_last, DispatchedMessage};

verus! {

/// Why the worker stopped reading.
#[derive(Clone, Copy, Debug, PartialEq, Eq, Structural)]
pub enum Termination {
    /// A read failed in the way a connection normally ends.
    EndOfStream,
    /// A read failed in any other way, or a frame that is not text arrived.
    ProtocolViolation,
    /// The consumer channel had no receiver left for a decoded message.
    ConsumerGone,
}

/// Where the worker stands: which outside work it is waiting for.
#[derive(Clone, Copy, Debug, PartialEq, Eq, Structural)]
pub enum Phase {
    /// Waiting for a read on the inbound half.
    Reading,
    /// Waiting for the decoder's verdict on a text frame.
    Decoding,
    /// Waiting for the channel to take a decoded message.
    Forwarding,
    /// Reading is over; waiting for the channel to take the sentinel.
    Notifying(Termination),
    /// Nothing is left to do.
    Finished(Termination),
}

/// What the outside work produced.
#[derive(Debug, PartialEq, Eq)]
pub enum Event<M> {
    /// The read returned a frame.
    FrameRead(Frame),
    /// The read failed.
    ReadFailed(ReadFailure),
    /// The decoder recognised the text and produced a message.
    Decoded(M),
    /// The decoder did not recognise the text.
    Unrecognized,
    /// The channel took the item.
    Delivered,
    /// The channel has no receiver left.
    ChannelClosed,
}

/// What the driver is to do next.
#[derive(Debug, PartialEq, Eq)]
pub enum Action<M> {
    /// Read the next frame from the inbound half.
    Read,
    /// Hand this text to the decoder.
    Decode(String),
    /// Push this item onto the consumer channel.
    Deliver(DispatchedMessage<M>),
    /// Leave the loop.
    Stop(Termination),
}

/// An event that the dispatcher could not take.
#[derive(Clone, Copy, Debug, PartialEq, Eq, Structural)]
pub enum DispatchError {
    /// The event does not answer the pending action.
    UnexpectedEvent,
    /// The dispatcher has finished and takes no more events.
    AlreadyFinished,
}

/// The reason recorded when a read fails with a failure of this class.
pub open spec fn termination_for(class: ErrorClassification) -> Termination {
    match class {
        ErrorClassification::BenignEndOfStream => Termination::EndOfStream,
        ErrorClassification::ProtocolViolation => Termination::ProtocolViolation,
    }
}

/// Whether `event` answers the action that is pending in `phase`.
pub open spec fn accepts<M>(phase: Phase, event: Event<M>) -> bool {
    match phase {
        Phase::Reading => event is FrameRead || event is ReadFailed,
        Phase::Decoding => event is Decoded || event is Unrecognized,
        Phase::Forwarding => event is Delivered || event is ChannelClosed,
        Phase::Notifying(_) => event is Delivered || event is ChannelClosed,
        Phase::Finished(_) => false,
    }
}

/// The phase after `event` was taken in `phase`; `phase` itself where the
/// event is not accepted.
pub open spec fn next_phase<M>(phase: Phase, event: Event<M>) -> Phase {
    match phase {
        Phase::Reading => match event {
            Event::FrameRead(Frame::Text(_)) => Phase::Decoding,
            Event::FrameRead(_) => Phase::Notifying(Termination::ProtocolViolation),
            Event::ReadFailed(failure) => Phase::Notifying(
                termination_for(classification(failure)),
            ),
            _ => phase,
        },
        Phase::Decoding => match event {
            Event::Decoded(_) => Phase::Forwarding,
            Event::Unrecognized => Phase::Reading,
            _ => phase,
        },
        Phase::Forwarding => match event {
            Event::Delivered => Phase::Reading,
            Event::ChannelClosed => Phase::Notifying(Termination::ConsumerGone),
            _ => phase,
        },
        Phase::Notifying(reason) => match event {
            Event::Delivered => Phase::Finished(reason),
            Event::ChannelClosed => Phase::Finished(reason),
            _ => phase,
        },
        Phase::Finished(_) => phase,
    }
}

/// The action that answers `event` taken in `phase`, for an accepted event.
///
/// A text frame goes to the decoder; a recognised message goes to the channel;
/// an unrecognised text is dropped and the worker reads on.  Whatever ends the
/// reading (a failed read, a frame that is not text, a channel without
/// receiver) is answered by pushing the sentinel, and the answer to that push,
/// whichever it is, by stopping.
pub open spec fn response<M>(phase: Phase, event: Event<M>) -> Action<M> {
    match phase {
        Phase::Reading => match event {
            Event::FrameRead(Frame::Text(text)) => Action::Decode(text),
            _ => Action::Deliver(DispatchedMessage::ConnectionShutdown),
        },
        Phase::Decoding => match event {
            Event::Decoded(message) => Action::Deliver(DispatchedMessage::Message(message)),
            _ => Action::Read,
        },
        Phase::Forwarding => match event {
            Event::Delivered => Action::Read,
            _ => Action::Deliver(DispatchedMessage::ConnectionShutdown),
        },
        Phase::Notifying(reason) => Action::Stop(reason),
        Phase::Finished(reason) => Action::Stop(reason),
    }
}

/// What [`Dispatcher::step`] returns for `event` in `phase`.
pub open spec fn reply<M>(phase: Phase, event: Event<M>) -> Result<Action<M>, DispatchError> {
    if phase is Finished {
        Err(DispatchError::AlreadyFinished)
    } else if !accepts(phase, event) {
        Err(DispatchError::UnexpectedEvent)
    } else {
        Ok(response(phase, event))
    }
}

/// One connection's dispatch as an observer sees it: the worker's phase, what
/// it has pushed towards the consumer channel so far, and what the channel
/// took of that.
pub struct Session<M> {
    pub phase: Phase,
    pub offered: Seq<DispatchedMessage<M>>,
    pub received: Seq<DispatchedMessage<M>>,
}

/// The session of a worker that has just started: reading, nothing pushed.
pub open spec fn fresh<M>() -> Session<M> {
    Session { phase: Phase::Reading, offered: Seq::empty(), received: Seq::empty() }
}

/// The session after `event`.  An event that is not accepted changes nothing.
/// An accepted one moves the phase; an item that the response pushes joins
/// `offered`; and when the channel reports that it took the item in flight,
/// which is the one offered last, that item joins `received`.
pub open spec fn advance<M>(session: Session<M>, event: Event<M>) -> Session<M> {
    if !accepts(session.phase, event) {
        session
    } else {
        let offered = match response(session.phase, event) {
            Action::Deliver(item) => session.offered.push(item),
            _ => session.offered,
        };
        let received = if event is Delivered && session.offered.len() > 0 {
            session.received.push(session.offered.last())
        } else {
            session.received
        };
        Session { phase: next_phase(session.phase, event), offered, received }
    }
}

/// What the channel took of `offered` before the sentinel, given why reading
/// ended: everything, but for the message that found no receiver.
pub open spec fn taken_before_sentinel<M>(
    offered: Seq<DispatchedMessage<M>>,
    reason: Termination,
) -> Seq<DispatchedMessage<M>> {
    if reason is ConsumerGone {
        offered.drop_last().drop_last()
    } else {
        offered.drop_last()
    }
}

/// The invariant of a session.
///
/// While the worker reads, the channel has taken every message pushed, in
/// order, and no sentinel exists.  Once reading has ended, exactly one
/// sentinel has been pushed, as the last item; the channel holds every message
/// pushed before it, but for one that found no receiver, and after them the
/// sentinel or nothing.
pub open spec fn coherent<M>(session: Session<M>) -> bool {
    match session.phase {
        Phase::Reading | Phase::Decoding => {
            &&& messages_only(session.offered)
            &&& session.received == session.offered
        },
        Phase::Forwarding => {
            &&& session.offered.len() > 0
            &&& messages_only(session.offered)
            &&& session.received == session.offered.drop_last()
        },
        Phase::Notifying(reason) => {
            &&& sentinel_last(session.offered)
            &&& reason is ConsumerGone ==> session.offered.len() >= 2
            &&& session.received == taken_before_sentinel(session.offered, reason)
        },
        Phase::Finished(reason) => {
            &&& sentinel_last(session.offered)
            &&& reason is ConsumerGone ==> session.offered.len() >= 2
            &&& {
                ||| session.received == taken_before_sentinel(session.offered, reason)
                ||| session.received == taken_before_sentinel(session.offered, reason).push(
                    DispatchedMessage::ConnectionShutdown,
                )
            }
        },
    }
}

/// Every event keeps a session coherent.
pub proof fn advance_keeps_coherent<M>(session: Session<M>, event: Event<M>)
    requires
        coherent(session),
    ensures
        coherent(advance(session, event)),
{
    let after = advance(session, event);
    if accepts(session.phase, event) {
        match session.phase {
            Phase::Reading => {
                if event matches Event::FrameRead(Frame::Text(_)) {
                } else {
                    assert(after.offered.drop_last() =~= session.offered);
                }
            },
            Phase::Decoding => {
                if event is Decoded {
                    assert(after.offered.drop_last() =~= session.offered);
                }
            },
            Phase::Forwarding => {
                if event is Delivered {
                    assert(after.received =~= session.offered);
                } else {
                    assert(after.offered.drop_last() =~= session.offered);
                }
            },
            Phase::Notifying(reason) => {
            },
            Phase::Finished(_) => {
            },
        }
    }
}

/// The decisions of one connection's dispatch worker.
///
/// Besides the phase it carries, as ghost state, what the events reported so
/// far say was pushed towards the channel and taken by it.  Its view is that
/// session, which is coherent at all times.
pub struct Dispatcher<M> {
    phase: Phase,
    offered: Ghost<Seq<DispatchedMessage<M>>>,
    received: Ghost<Seq<DispatchedMessage<M>>>,
}

impl<M> View for Dispatcher<M> {
    type V = Session<M>;

    closed spec fn view(&self) -> Session<M> {
        Session { phase: self.phase, offered: self.offered@, received: self.received@ }
    }
}

impl<M> Dispatcher<M> {
    #[verifier::type_invariant]
    spec fn always_coherent(self) -> bool {
        coherent(self@)
    }

    /// A dispatcher for a connection that was just established.  The worker's
    /// first action is [`Action::Read`].
    pub fn new() -> (dispatcher: Self)
        ensures
            dispatcher@ == fresh::<M>(),
    {
        Dispatcher { phase: Phase::Reading, offered: Ghost(Seq::empty()), received: Ghost(Seq::empty()) }
    }

    /// The current phase.
    pub fn phase(&self) -> (phase: Phase)
        ensures
            phase == self@.phase,
            coherent(self@),
    {
        proof {
            use_type_invariant(self);
        }
        self.phase
    }

    /// Why the worker stopped, once it has.
    pub fn termination(&self) -> (reason: Option<Termination>)
        ensures
            reason == match self@.phase {
                Phase::Finished(reason) => Some(reason),
                _ => None,
            },
    {
        match self.phase {
            Phase::Finished(reason) => Some(reason),
            _ => None,
        }
    }

    /// Takes what the pending action produced and says what to do next.
    ///
    /// An event that does not answer the pending action is refused and leaves
    /// the dispatcher as it was.
    pub fn step(&mut self, event: Event<M>) -> (result: Result<Action<M>, DispatchError>)
        ensures
            final(self)@ == advance(old(self)@, event),
            result == reply(old(self)@.phase, event),
            coherent(final(self)@),
    {
        proof {
            use_type_invariant(&*self);
            advance_keeps_coherent(self@, event);
        }
        let ghost after = advance(self@, event);
        let phase = self.phase;
        let (next, result) = match phase {
            Phase::Reading => match event {
                Event::FrameRead(frame) => match frame {
                    Frame::Text(text) => (Phase::Decoding, Ok(Action::Decode(text))),
                    _ => (
                        Phase::Notifying(Termination::ProtocolViolation),
                        Ok(Action::Deliver(DispatchedMessage::ConnectionShutdown)),
                    ),
                },
                Event::ReadFailed(failure) => {
                    let reason = match failure.classify() {
                        ErrorClassification::BenignEndOfStream => Termination::EndOfStream,
                        ErrorClassification::ProtocolViolation => Termination::ProtocolViolation,
                    };
                    (
                        Phase::Notifying(reason),
                        Ok(Action::Deliver(DispatchedMessage::ConnectionShutdown)),
                    )
                },
                _ => (phase, Err(DispatchError::UnexpectedEvent)),
            },
            Phase::Decoding => match event {
                Event::Decoded(message) => (
                    Phase::Forwarding,
                    Ok(Action::Deliver(DispatchedMessage::Message(message))),
                ),
                Event::Unrecognized => (Phase::Reading, Ok(Action::Read)),
                _ => (phase, Err(DispatchError::UnexpectedEvent)),
            },
            Phase::Forwarding => match event {
                Event::Delivered => (Phase::Reading, Ok(Action::Read)),
                Event::ChannelClosed => (
                    Phase::Notifying(Termination::ConsumerGone),
                    Ok(Action::Deliver(DispatchedMessage::ConnectionShutdown)),
                ),
                _ => (phase, Err(DispatchError::UnexpectedEvent)),
            },
            Phase::Notifying(reason) => match event {
                Event::Delivered => (Phase::Finished(reason), Ok(Action::Stop(reason))),
                Event::ChannelClosed => (Phase::Finished(reason), Ok(Action::Stop(reason))),
                _ => (phase, Err(DispatchError::UnexpectedEvent)),
            },
            Phase::Finished(_) => (phase, Err(DispatchError::AlreadyFinished)),
        };
        *self = Dispatcher {
            phase: next,
            offered: Ghost(after.offered),
            received: Ghost(after.received),
        };
        result
    }
}

} // verus!
