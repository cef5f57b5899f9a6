use vstd::prelude::*;

use crate::message::Version;

verus! {

/// The metadata of a response: the part a policy is evaluated against.
#[derive(Debug, PartialEq)]
pub struct ResponseHead {
    pub status: u16,
    pub version: Version,
    pub headers: Vec<(String, String)>,
}

/// An identifier for the raw connection behind an established tunnel.  The
/// connection itself lives outside this layer; the identifier only lets a
/// caller find it again.
#[derive(Clone, Copy, PartialEq, Eq, Structural, Debug)]
pub struct ConnectionHandle {
    pub id: u64,
}

/// What a completed attempt delivered: either an ordinary response with its
/// (buffered) body, or an established CONNECT-style tunnel.  A tunnel carries
/// no retryable body, only the handle of the raw connection.
#[derive(Debug)]
pub enum ResponseOutcome {
    Direct { head: ResponseHead, body: bytes::Bytes },
    TunnelEstablished { head: ResponseHead, handle: ConnectionHandle },
}

impl ResponseOutcome {
    /// The response head, for either kind of outcome.
    pub open spec fn head_spec(&self) -> ResponseHead {
        match *self {
            ResponseOutcome::Direct { head, .. } => head,
            ResponseOutcome::TunnelEstablished { head, .. } => head,
        }
    }

    /// The response head, for either kind of outcome.
    pub fn head(&self) -> (h: &ResponseHead)
        ensures
            *h == self.head_spec(),
    {
        match self {
            ResponseOutcome::Direct { head, .. } => head,
            ResponseOutcome::TunnelEstablished { head, .. } => head,
        }
    }
}

/// Why the connector could not complete an attempt.  Retry decisions never
/// inspect the kind; it is carried through to the caller verbatim.
#[derive(Clone, Copy, PartialEq, Eq, Structural, Debug)]
pub enum TransportError {
    Connect,
    Timeout,
    Send,
    Response,
    Other,
}

/// The result of one attempt: a response outcome, or a transport failure.
#[derive(Debug)]
pub enum AttemptResult {
    Success(ResponseOutcome),
    TransportFailure(TransportError),
}

/// How an attempt result is surfaced to the caller when it is the one
/// delivered: a success as `Ok`, a transport failure as `Err`.
pub open spec fn surfaced(r: AttemptResult) -> Result<ResponseOutcome, TransportError> {
    match r {
        AttemptResult::Success(o) => Ok(o),
        AttemptResult::TransportFailure(e) => Err(e),
    }
}

} // verus!
