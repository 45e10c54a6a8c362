//! The closed error taxonomy and the pure classifier that maps broker
//! status codes and low-level failures onto it, together with the retry
//! policy each kind carries.

use vstd::prelude::*;

verus! {

/// One kind per failure class the engine distinguishes. `Token` is the
/// inherited kind for failures of the external token provider.
#[derive(Clone, Copy, Debug, PartialEq, Eq, Structural)]
pub enum ErrorKind {
    /// Transport-level problem; retryable.
    Connection,
    /// Malformed outbound request; indicates a client bug, fatal.
    Request,
    /// The subscription is not known to the broker; fatal.
    NoSubscription,
    /// Access is forbidden for the client or event type; fatal.
    Forbidden,
    /// The broker rejected the commit slot for this cursor; not retried
    /// for that cursor.
    Conflict,
    /// The broker's response made further processing impossible; the
    /// connection is re-established.
    InvalidResponse,
    /// The broker rejected the cursor as unprocessable; not retried for
    /// that cursor.
    CursorUnprocessable,
    /// A failure of the external token provider; retryable up to a bound.
    Token,
}

/// How a caller may react to a failure of a given kind.
#[derive(Clone, Copy, Debug, PartialEq, Eq, Structural)]
pub enum RetryClass {
    /// Retry locally (reconnect or bounded commit retry).
    Transient,
    /// Give up on this cursor only; the engine keeps running.
    PerCursor,
    /// Surface to the engine's caller and stop.
    Fatal,
}

/// A classified failure together with human-readable context.
pub struct ClientError {
    pub kind: ErrorKind,
    pub message: String,
}

impl ClientError {
    pub fn new(kind: ErrorKind, message: String) -> (e: ClientError)
        ensures
            e.kind == kind,
            e.message == message,
    {
        ClientError { kind, message }
    }
}

/// The retry class each kind carries, identical for every caller; the
/// policy applied on top differs between the connection and the
/// committer.
pub open spec fn retry_class_spec(kind: ErrorKind) -> RetryClass {
    match kind {
        ErrorKind::Connection => RetryClass::Transient,
        ErrorKind::Token => RetryClass::Transient,
        ErrorKind::InvalidResponse => RetryClass::Transient,
        ErrorKind::Conflict => RetryClass::PerCursor,
        ErrorKind::CursorUnprocessable => RetryClass::PerCursor,
        ErrorKind::Request => RetryClass::Fatal,
        ErrorKind::NoSubscription => RetryClass::Fatal,
        ErrorKind::Forbidden => RetryClass::Fatal,
    }
}

pub fn retry_class(kind: ErrorKind) -> (r: RetryClass)
    ensures
        r == retry_class_spec(kind),
{
    match kind {
        ErrorKind::Connection => RetryClass::Transient,
        ErrorKind::Token => RetryClass::Transient,
        ErrorKind::InvalidResponse => RetryClass::Transient,
        ErrorKind::Conflict => RetryClass::PerCursor,
        ErrorKind::CursorUnprocessable => RetryClass::PerCursor,
        ErrorKind::Request => RetryClass::Fatal,
        ErrorKind::NoSubscription => RetryClass::Fatal,
        ErrorKind::Forbidden => RetryClass::Fatal,
    }
}

/// The mapping from a non-success broker status code to an error kind:
/// 403 is forbidden, 404 means the subscription is unknown, 409 is a
/// commit conflict, 422 an unprocessable cursor, any other 4xx a bad
/// request, and everything else a connection-level problem.
pub open spec fn classify_status_spec(status: u16) -> ErrorKind {
    if status == 403 {
        ErrorKind::Forbidden
    } else if status == 404 {
        ErrorKind::NoSubscription
    } else if status == 409 {
        ErrorKind::Conflict
    } else if status == 422 {
        ErrorKind::CursorUnprocessable
    } else if 400 <= status && status < 500 {
        ErrorKind::Request
    } else {
        ErrorKind::Connection
    }
}

pub fn classify_status(status: u16) -> (k: ErrorKind)
    ensures
        k == classify_status_spec(status),
{
    if status == 403 {
        ErrorKind::Forbidden
    } else if status == 404 {
        ErrorKind::NoSubscription
    } else if status == 409 {
        ErrorKind::Conflict
    } else if status == 422 {
        ErrorKind::CursorUnprocessable
    } else if 400 <= status && status < 500 {
        ErrorKind::Request
    } else {
        ErrorKind::Connection
    }
}

} // verus!
