//! Protocol core of a WebSocket transport for a remote-debugging connection.
//!
//! The crate holds the decisions of the transport and none of its I/O: how an
//! inbound failure is classified, what the dispatch worker does with each
//! frame, and what the consumer channel is handed, up to and including the
//! single terminal `ConnectionShutdown`.  A driver owns the socket and the
//! channel; it performs each [`dispatch::Action`] and reports what came of it
//! as a [`dispatch::Event`].

pub mod dispatch;
pub mod failure;
pub mod frame;
pub mod message;
pub mod trace;
