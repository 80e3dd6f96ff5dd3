//! What the consumer channel carries.

use vstd::prelude::*;

verus! {

/// An item on the consumer channel: a decoded application message, whose
/// content the transport never inspects, or the sentinel that ends the stream.
#[derive(Debug, PartialEq, Eq)]
pub enum DispatchedMessage<M> {
    /// A message that the decoder recognised.
    Message(M),
    /// The transport has ended; nothing follows.
    ConnectionShutdown,
}

/// No item of `items` is the sentinel.
pub open spec fn messages_only<M>(items: Seq<DispatchedMessage<M>>) -> bool {
    forall|i: int| 0 <= i < items.len() ==> (#[trigger] items[i]) is Message
}

/// `items` ends with the sentinel and holds it nowhere else.
pub open spec fn sentinel_last<M>(items: Seq<DispatchedMessage<M>>) -> bool {
    &&& items.len() > 0
    &&& items.last() is ConnectionShutdown
    &&& messages_only(items.drop_last())
}

/// The sentinel occurs at most once in `items`, and then at the very end.
pub open spec fn sentinel_at_most_once_and_last<M>(items: Seq<DispatchedMessage<M>>) -> bool {
    forall|i: int|
        0 <= i < items.len() && (#[trigger] items[i]) is ConnectionShutdown ==> i == items.len() - 1
}

impl<M> DispatchedMessage<M> {
    /// Whether this is the terminal sentinel.
    pub fn is_shutdown(&self) -> (shutdown: bool)
        ensures
            shutdown == (*self is ConnectionShutdown),
    {
        match self {
            DispatchedMessage::ConnectionShutdown => true,
            DispatchedMessage::Message(_) => false,
        }
    }
}

} // verus!
