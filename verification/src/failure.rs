//! Failures of a read on the inbound half, and how the transport classifies them.

use vstd::prelude::*;

verus! {

/// Why a read on the inbound half produced no frame.
///
/// One variant per kind of failure that the frame codec reports; the payloads
/// that the codec attaches (a description, the operating system's error) play
/// no part in any decision and are left with the driver for its log.
#[derive(Clone, Copy, Debug, PartialEq, Eq, Structural)]
pub enum ReadFailure {
    /// The peer broke the WebSocket protocol.
    ProtocolError,
    /// A data frame was malformed.
    DataFrameError,
    /// The stream ended: no more data is available.
    NoDataAvailable,
    /// The underlying socket reported an I/O failure.
    IoError,
    /// A text payload was not valid UTF-8.
    Utf8Error,
    /// Any other failure raised below the codec.
    Other,
}

/// The two classes of inbound failure.
#[derive(Clone, Copy, Debug, PartialEq, Eq, Structural)]
pub enum ErrorClassification {
    /// The peer or the transport ended the connection normally.
    BenignEndOfStream,
    /// Anything else: the connection cannot go on.
    ProtocolViolation,
}

/// The class of a read failure: running out of data and I/O failures are how a
/// connection normally ends, every other failure is a protocol violation.
pub open spec fn classification(failure: ReadFailure) -> ErrorClassification {
    if failure is NoDataAvailable || failure is IoError {
        ErrorClassification::BenignEndOfStream
    } else {
        ErrorClassification::ProtocolViolation
    }
}

impl ReadFailure {
    /// Classifies this failure.
    pub fn classify(&self) -> (class: ErrorClassification)
        ensures
            class == classification(*self),
    {
        match self {
            ReadFailure::NoDataAvailable => ErrorClassification::BenignEndOfStream,
            ReadFailure::IoError => ErrorClassification::BenignEndOfStream,
            ReadFailure::ProtocolError => ErrorClassification::ProtocolViolation,
            ReadFailure::DataFrameError => ErrorClassification::ProtocolViolation,
            ReadFailure::Utf8Error => ErrorClassification::ProtocolViolation,
            ReadFailure::Other => ErrorClassification::ProtocolViolation,
        }
    }
}

} // verus!
