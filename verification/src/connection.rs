//! The connection lifecycle state machine. A connection is opened,
//! streams until a failure, and then either backs off and reconnects
//! (transient failures) or closes for good (fatal classifications or
//! an explicit close). `Closed` is terminal.

use vstd::prelude::*;
use crate::errors::{retry_class, retry_class_spec, ErrorKind, RetryClass};

verus! {

/// The states one broker connection moves through.
#[derive(Clone, Copy, Debug, PartialEq, Eq, Structural)]
pub enum ConnectionState {
    Disconnected,
    Connecting,
    Streaming,
    Reconnecting,
    Closed,
}

/// What can happen to a connection.
#[derive(Clone, Copy, Debug, PartialEq, Eq, Structural)]
pub enum ConnectionEvent {
    /// The engine asks for the stream to be opened.
    OpenRequested,
    /// The transport delivered an open stream.
    TransportSuccess,
    /// A transport, broker or decode failure of the given kind.
    Failure(ErrorKind),
    /// The reconnect backoff delay has elapsed.
    BackoffElapsed,
    /// The engine is being shut down.
    CloseRequested,
}

/// The transition table: opening moves an idle connection to
/// `Connecting`; transport success starts `Streaming`; a failure while
/// connecting or streaming re-enters `Reconnecting` when its kind is
/// not fatal and closes the connection when it is; an elapsed backoff
/// retries the connect; a close request always closes; `Closed` never
/// leaves. Events that do not apply to the current state leave it
/// unchanged.
pub open spec fn transition_spec(s: ConnectionState, e: ConnectionEvent) -> ConnectionState {
    match e {
        ConnectionEvent::CloseRequested => ConnectionState::Closed,
        ConnectionEvent::OpenRequested => if s == ConnectionState::Disconnected {
            ConnectionState::Connecting
        } else {
            s
        },
        ConnectionEvent::TransportSuccess => if s == ConnectionState::Connecting {
            ConnectionState::Streaming
        } else {
            s
        },
        ConnectionEvent::BackoffElapsed => if s == ConnectionState::Reconnecting {
            ConnectionState::Connecting
        } else {
            s
        },
        ConnectionEvent::Failure(k) => if s == ConnectionState::Closed {
            ConnectionState::Closed
        } else if retry_class_spec(k) == RetryClass::Fatal {
            ConnectionState::Closed
        } else if s == ConnectionState::Streaming || s == ConnectionState::Connecting {
            ConnectionState::Reconnecting
        } else {
            s
        },
    }
}

pub fn transition(s: ConnectionState, e: ConnectionEvent) -> (t: ConnectionState)
    ensures
        t == transition_spec(s, e),
{
    match e {
        ConnectionEvent::CloseRequested => ConnectionState::Closed,
        ConnectionEvent::OpenRequested => if s == ConnectionState::Disconnected {
            ConnectionState::Connecting
        } else {
            s
        },
        ConnectionEvent::TransportSuccess => if s == ConnectionState::Connecting {
            ConnectionState::Streaming
        } else {
            s
        },
        ConnectionEvent::BackoffElapsed => if s == ConnectionState::Reconnecting {
            ConnectionState::Connecting
        } else {
            s
        },
        ConnectionEvent::Failure(k) => if s == ConnectionState::Closed {
            ConnectionState::Closed
        } else if retry_class(k) == RetryClass::Fatal {
            ConnectionState::Closed
        } else if s == ConnectionState::Streaming || s == ConnectionState::Connecting {
            ConnectionState::Reconnecting
        } else {
            s
        },
    }
}

/// `Closed` is terminal: no event leaves it.
pub proof fn law_closed_is_terminal(e: ConnectionEvent)
    ensures
        transition_spec(ConnectionState::Closed, e) == ConnectionState::Closed,
{
}

/// A fatal classification closes the connection from any state, so a
/// forbidden stream open goes straight to `Closed`, never through
/// `Reconnecting`.
pub proof fn law_fatal_closes(s: ConnectionState, k: ErrorKind)
    requires
        retry_class_spec(k) == RetryClass::Fatal,
    ensures
        transition_spec(s, ConnectionEvent::Failure(k)) == ConnectionState::Closed,
{
}

} // verus!
