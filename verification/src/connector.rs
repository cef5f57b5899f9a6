use vstd::prelude::*;

use crate::message::RequestDescriptor;
use crate::message::RequestHead;
use crate::outcome::AttemptResult;
use crate::outcome::TransportError;

verus! {

/// What the retry layer hands the connector for one attempt: an ordinary
/// client request with a replayable descriptor, or a CONNECT-style tunnel
/// request, which is never retried.
#[derive(Debug)]
pub enum ConnectRequest {
    Client(RequestDescriptor),
    Tunnel(RequestHead),
}

/// The external capability that performs one request/response exchange.
///
/// Nothing is promised about which result a call produces — the network
/// decides that — only that each call appends exactly its own request and its
/// own result to the connector's record.  The retry layer's contracts are
/// stated over that record.
pub trait Connector: Sized {
    /// The results the connector has produced so far, in order.
    spec fn history(&self) -> Seq<AttemptResult>;

    /// The requests the connector has been handed so far, in order.
    spec fn requests(&self) -> Seq<ConnectRequest>;

    /// Whether the connector is ready to accept work.
    spec fn ready_spec(&self) -> bool;

    /// Non-blocking readiness probe.
    fn is_ready(&self) -> (r: bool)
        ensures
            r == self.ready_spec();

    /// Performs one attempt.  May report any result, but records exactly this
    /// request and exactly the result it returns.
    fn call(&mut self, req: ConnectRequest) -> (r: AttemptResult)
        ensures
            final(self).history() == old(self).history().push(r),
            final(self).requests() == old(self).requests().push(req);
}

/// A connector that answers successive calls with a fixed script of results
/// and records every request it is handed.  Once the script is exhausted it
/// reports a transport failure.
pub struct ScriptedConnector {
    /// Results not yet handed out; the next one is the last element.
    remaining: Vec<AttemptResult>,
    received: Vec<ConnectRequest>,
    past: Ghost<Seq<AttemptResult>>,
}

impl ScriptedConnector {
    /// The scripted results not yet handed out, in the order they will come.
    pub closed spec fn pending(&self) -> Seq<AttemptResult> {
        self.remaining@.reverse()
    }

    /// A connector that will answer with exactly the given results, in order.
    pub fn new(script: Vec<AttemptResult>) -> (c: ScriptedConnector)
        ensures
            c.pending() == script@,
            c.history() == Seq::<AttemptResult>::empty(),
            c.requests() == Seq::<ConnectRequest>::empty(),
    {
        let ghost full = script@;
        let mut src = script;
        let mut remaining: Vec<AttemptResult> = Vec::new();
        while src.len() > 0
            invariant
                src@.len() + remaining@.len() == full.len(),
                forall|j: int| 0 <= j < src@.len() ==> src@[j] == full[j],
                forall|j: int| 0 <= j < remaining@.len()
                    ==> remaining@[j] == full[full.len() - 1 - j],
            decreases src.len(),
        {
            match src.pop() {
                Some(x) => remaining.push(x),
                None => {},
            }
        }
        proof {
            assert(remaining@.reverse() =~= full);
        }
        ScriptedConnector { remaining, received: Vec::new(), past: Ghost(Seq::empty()) }
    }

    /// How many calls this connector has answered.
    pub fn calls_made(&self) -> (n: usize)
        ensures
            n as int == self.requests().len(),
    {
        self.received.len()
    }

    /// The requests handed to this connector so far, in order.
    pub fn received(&self) -> (v: &Vec<ConnectRequest>)
        ensures
            v@ == self.requests(),
    {
        &self.received
    }
}

impl Connector for ScriptedConnector {
    closed spec fn history(&self) -> Seq<AttemptResult> {
        self.past@
    }

    closed spec fn requests(&self) -> Seq<ConnectRequest> {
        self.received@
    }

    closed spec fn ready_spec(&self) -> bool {
        true
    }

    fn is_ready(&self) -> (r: bool) {
        true
    }

    fn call(&mut self, req: ConnectRequest) -> (r: AttemptResult) {
        let r = match self.remaining.pop() {
            Some(x) => x,
            None => AttemptResult::TransportFailure(TransportError::Other),
        };
        self.received.push(req);
        self.past = Ghost(self.past@.push(r));
        r
    }
}

} // verus!
