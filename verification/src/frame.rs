//! Inbound frames, as far as the transport looks at them.

use vstd::prelude::*;

verus! {

/// One frame handed up by the frame codec.
///
/// The transport tells text from everything else and reads nothing but the
/// payload of a text frame, so the other kinds carry none.
#[derive(Debug, PartialEq, Eq)]
pub enum Frame {
    /// UTF-8 text: the only kind that carries application messages.
    Text(String),
    /// Binary data.
    Binary,
    /// The peer's close frame.
    Close,
    /// A ping.
    Ping,
    /// A pong.
    Pong,
}

impl Frame {
    /// Whether this is a text frame.
    pub fn is_text(&self) -> (text: bool)
        ensures
            text == (*self is Text),
    {
        match self {
            Frame::Text(_) => true,
            _ => false,
        }
    }
}

} // verus!
