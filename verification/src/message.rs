use vstd::prelude::*;

use crate::buffer::buffer_bytes;
use crate::buffer::buffer_clone;
use crate::buffer::buffer_from_vec;
use crate::buffer::buffer_to_vec;

verus! {

/// A protocol version tag for a request or response head.
#[derive(Clone, Copy, PartialEq, Eq, Structural, Debug)]
pub enum Version {
    Http09,
    Http10,
    Http11,
    Http2,
    Http3,
}

/// The reproducible head of an outgoing request: everything that goes on the
/// wire apart from the body.  Headers are an ordered list of name/value pairs;
/// a name may appear more than once.
#[derive(Debug, PartialEq)]
pub struct RequestHead {
    pub method: String,
    pub uri: String,
    pub version: Version,
    pub peer_addr: Option<String>,
    pub headers: Vec<(String, String)>,
}

/// Field-for-field equality of two request heads.
pub open spec fn same_head(a: RequestHead, b: RequestHead) -> bool {
    &&& a.method == b.method
    &&& a.uri == b.uri
    &&& a.version == b.version
    &&& a.peer_addr == b.peer_addr
    &&& a.headers@ == b.headers@
}

/// A request body.  `Buffered` bodies are held in a shared immutable buffer
/// and can be resent byte-for-byte; `Empty` bodies carry nothing; an
/// `Unreplayable` body (a stream or other opaque handle) cannot be reproduced
/// and must never be retried.
#[derive(Debug)]
pub enum Body {
    Buffered(bytes::Bytes),
    Empty,
    Unreplayable,
}

/// Whether a body can be reproduced for a further attempt.
pub open spec fn replayable(b: Body) -> bool {
    !(b is Unreplayable)
}

/// The two bodies are of the same kind and, when buffered, hold the same bytes.
pub open spec fn same_body(a: Body, b: Body) -> bool {
    match (a, b) {
        (Body::Buffered(x), Body::Buffered(y)) => buffer_bytes(x) == buffer_bytes(y),
        (Body::Empty, Body::Empty) => true,
        (Body::Unreplayable, Body::Unreplayable) => true,
        _ => false,
    }
}

impl Body {
    /// Whether this body can be reproduced for a further attempt.
    pub fn is_replayable(&self) -> (r: bool)
        ensures
            r == replayable(*self),
    {
        match self {
            Body::Unreplayable => false,
            _ => true,
        }
    }

    /// Wraps a vector of bytes as a buffered, replayable body.
    pub fn buffered(v: Vec<u8>) -> (b: Body)
        ensures
            match b {
                Body::Buffered(x) => buffer_bytes(x) == v@,
                _ => false,
            },
    {
        Body::Buffered(buffer_from_vec(v))
    }

    /// The bytes of a buffered body, or `None` for the other kinds.
    pub fn bytes_of(&self) -> (r: Option<Vec<u8>>)
        ensures
            match *self {
                Body::Buffered(x) => match r {
                    Some(v) => v@ == buffer_bytes(x),
                    None => false,
                },
                _ => r is None,
            },
    {
        match self {
            Body::Buffered(b) => Some(buffer_to_vec(b)),
            Body::Empty => None,
            Body::Unreplayable => None,
        }
    }
}

/// The reproducible representation of one outgoing request: its head and body.
#[derive(Debug)]
pub struct RequestDescriptor {
    pub head: RequestHead,
    pub body: Body,
}

/// `copy` is a faithful replay of `orig`: the heads agree field for field and
/// the bodies hold the same bytes.
pub open spec fn replays(orig: RequestDescriptor, copy: RequestDescriptor) -> bool {
    &&& same_head(orig.head, copy.head)
    &&& same_body(orig.body, copy.body)
}

fn clone_peer(p: &Option<String>) -> (r: Option<String>)
    ensures
        r == *p,
{
    match p {
        Some(s) => Some(s.clone()),
        None => None,
    }
}

/// Produces an independent copy of a request head with the method, URI,
/// protocol version, peer address and header collection copied in full.
pub fn replay_head(head: &RequestHead) -> (r: RequestHead)
    ensures
        same_head(*head, r),
{
    let mut headers: Vec<(String, String)> = Vec::new();
    let mut i: usize = 0;
    while i < head.headers.len()
        invariant
            i <= head.headers.len(),
            headers@.len() == i as int,
            forall|j: int| 0 <= j < i ==> headers@[j] == head.headers@[j],
        decreases head.headers.len() - i,
    {
        let pair = &head.headers[i];
        headers.push((pair.0.clone(), pair.1.clone()));
        i += 1;
    }
    proof {
        assert(headers@ =~= head.headers@);
    }
    RequestHead {
        method: head.method.clone(),
        uri: head.uri.clone(),
        version: head.version,
        peer_addr: clone_peer(&head.peer_addr),
        headers,
    }
}

/// Produces a descriptor usable for exactly one attempt, independent of the
/// original: the head is copied in full, and a buffered body is duplicated so
/// that every attempt sends the same bytes.
pub fn replay_descriptor(d: &RequestDescriptor) -> (r: RequestDescriptor)
    ensures
        replays(*d, r),
{
    let body = match &d.body {
        Body::Buffered(b) => Body::Buffered(buffer_clone(b)),
        Body::Empty => Body::Empty,
        Body::Unreplayable => Body::Unreplayable,
    };
    RequestDescriptor { head: replay_head(&d.head), body }
}

} // verus!
