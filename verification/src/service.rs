use vstd::prelude::*;

use crate::connector::ConnectRequest;
use crate::connector::Connector;
use crate::message::RequestDescriptor;
use crate::message::replayable;
use crate::message::replays;
use crate::message::replay_descriptor;
use crate::outcome::AttemptResult;
use crate::outcome::ResponseHead;
use crate::outcome::ResponseOutcome;
use crate::outcome::TransportError;
use crate::outcome::surfaced;
use crate::policy::PolicySet;
use crate::policy::ResponsePredicate;
use crate::policy::Retry;

verus! {

/// What the attempt loop does with one attempt's result: deliver it to the
/// caller, or replay the request once more.
#[derive(Clone, Copy, PartialEq, Eq, Structural, Debug)]
pub enum AttemptDecision {
    Deliver,
    Retry,
}

/// After a transport failure on attempt `attempt` (0-indexed): retry while
/// the budget allows, otherwise surface the failure.
pub fn decide_on_failure<P: ResponsePredicate>(set: &PolicySet<P>, attempt: u8) -> (d: AttemptDecision)
    ensures
        d == (if attempt >= set.max_retries {
            AttemptDecision::Deliver
        } else {
            AttemptDecision::Retry
        }),
{
    if attempt >= set.max_retries {
        AttemptDecision::Deliver
    } else {
        AttemptDecision::Retry
    }
}

/// After a successful attempt: deliver a policy-valid outcome, retry an
/// invalid one while the budget allows, and deliver the last outcome as-is
/// once the budget is spent.  An invalid response is never turned into an
/// error.
pub fn decide_on_success<P: ResponsePredicate>(
    set: &PolicySet<P>,
    attempt: u8,
    head: &ResponseHead,
) -> (d: AttemptDecision)
    ensures
        d == (if set.is_valid_response_spec(*head) || attempt >= set.max_retries {
            AttemptDecision::Deliver
        } else {
            AttemptDecision::Retry
        }),
{
    if set.is_valid_response(head) {
        AttemptDecision::Deliver
    } else if attempt < set.max_retries {
        AttemptDecision::Retry
    } else {
        AttemptDecision::Deliver
    }
}

/// Whether an attempt result ends the loop with a delivery before the budget
/// is spent: only a success that every policy accepts does.
pub open spec fn accepted<P: ResponsePredicate>(set: PolicySet<P>, r: AttemptResult) -> bool {
    match r {
        AttemptResult::Success(o) => set.is_valid_response_spec(o.head_spec()),
        AttemptResult::TransportFailure(_) => false,
    }
}

/// The request sent for one attempt is an ordinary client request whose
/// descriptor faithfully replays the original.
pub open spec fn is_client_replay(orig: RequestDescriptor, sent: ConnectRequest) -> bool {
    match sent {
        ConnectRequest::Client(d) => replays(orig, d),
        ConnectRequest::Tunnel(_) => false,
    }
}

/// The full contract of one run of the attempt loop, over the connector's
/// record before (`h0`, `q0`) and after (`h`, `q`) the run and the delivered
/// result `res`:
/// between 1 and `max_retries + 1` calls were made; every request sent
/// replays the original; no result before the last was acceptable; the loop
/// stopped early only for an accepted result; and the last result is
/// delivered verbatim — a success as `Ok`, a failure as `Err`.
pub open spec fn retry_run_post<P: ResponsePredicate>(
    set: PolicySet<P>,
    req: RequestDescriptor,
    h0: Seq<AttemptResult>,
    h: Seq<AttemptResult>,
    q0: Seq<ConnectRequest>,
    q: Seq<ConnectRequest>,
    res: Result<ResponseOutcome, TransportError>,
) -> bool {
    &&& h0.len() < h.len()
    &&& h.len() - h0.len() <= set.max_retries + 1
    &&& forall|i: int| 0 <= i < h0.len() ==> h[i] == h0[i]
    &&& q.len() - q0.len() == h.len() - h0.len()
    &&& forall|i: int| 0 <= i < q0.len() ==> q[i] == q0[i]
    &&& forall|i: int| q0.len() <= i < q.len() ==> is_client_replay(req, #[trigger] q[i])
    &&& forall|i: int| h0.len() <= i < h.len() - 1 ==> !accepted(set, #[trigger] h[i])
    &&& (h.len() - h0.len() <= set.max_retries ==> accepted(set, h.last()))
    &&& res == surfaced(h.last())
}

/// The contract of the single-attempt path taken for tunnel requests and for
/// requests with an unreplayable body: exactly one call, the request passed
/// through unmodified, and its result delivered verbatim.
pub open spec fn single_shot_post(
    h0: Seq<AttemptResult>,
    h: Seq<AttemptResult>,
    q0: Seq<ConnectRequest>,
    q: Seq<ConnectRequest>,
    sent: ConnectRequest,
    res: Result<ResponseOutcome, TransportError>,
) -> bool {
    &&& h.len() == h0.len() + 1
    &&& forall|i: int| 0 <= i < h0.len() ==> h[i] == h0[i]
    &&& q == q0.push(sent)
    &&& res == surfaced(h.last())
}

/// The attempt loop for a request with a replayable (`Buffered` or `Empty`)
/// body: replay, call the connector, and let the attempt's result and the
/// remaining budget decide between delivering and retrying.
#[verifier::loop_isolation(false)]
pub fn run_attempts<C: Connector, P: ResponsePredicate>(
    set: &PolicySet<P>,
    req: &RequestDescriptor,
    conn: &mut C,
) -> (res: Result<ResponseOutcome, TransportError>)
    requires
        replayable(req.body),
    ensures
        retry_run_post(
            *set,
            *req,
            old(conn).history(),
            final(conn).history(),
            old(conn).requests(),
            final(conn).requests(),
            res,
        ),
{
    let ghost h0 = conn.history();
    let ghost q0 = conn.requests();
    let mut attempt: u8 = 0;
    loop
        invariant
            replayable(req.body),
            attempt <= set.max_retries,
            conn.history().len() == h0.len() + attempt as int,
            conn.requests().len() == q0.len() + attempt as int,
            forall|i: int| 0 <= i < h0.len() ==> conn.history()[i] == h0[i],
            forall|i: int| 0 <= i < q0.len() ==> conn.requests()[i] == q0[i],
            forall|i: int|
                h0.len() <= i < conn.history().len()
                    ==> !accepted(*set, #[trigger] conn.history()[i]),
            forall|i: int|
                q0.len() <= i < conn.requests().len()
                    ==> is_client_replay(*req, #[trigger] conn.requests()[i]),
        decreases set.max_retries - attempt,
    {
        let fresh = replay_descriptor(req);
        let r = conn.call(ConnectRequest::Client(fresh));
        match r {
            AttemptResult::Success(o) => {
                let d = decide_on_success(set, attempt, o.head());
                if d == AttemptDecision::Deliver {
                    return Ok(o);
                }
                attempt = attempt + 1;
            },
            AttemptResult::TransportFailure(e) => {
                let d = decide_on_failure(set, attempt);
                if d == AttemptDecision::Deliver {
                    return Err(e);
                }
                attempt = attempt + 1;
            },
        }
    }
}

/// Law: when every result the connector produced during one run of the
/// attempt loop was a transport failure, the loop made exactly
/// `max_retries + 1` calls and surfaced the last failure as an error.
pub proof fn lemma_failures_exhaust_budget<P: ResponsePredicate>(
    set: PolicySet<P>,
    req: RequestDescriptor,
    h0: Seq<AttemptResult>,
    h: Seq<AttemptResult>,
    q0: Seq<ConnectRequest>,
    q: Seq<ConnectRequest>,
    res: Result<ResponseOutcome, TransportError>,
)
    requires
        retry_run_post(set, req, h0, h, q0, q, res),
        forall|i: int| h0.len() <= i < h.len() ==> (#[trigger] h[i]) is TransportFailure,
    ensures
        h.len() - h0.len() == set.max_retries + 1,
        res is Err,
        res == surfaced(h.last()),
{
}

/// Law: when the connector produced a policy-valid success as its `j`-th
/// result of the run (0-indexed) and nothing acceptable before it, the loop
/// made exactly `j + 1` calls and delivered that success.
pub proof fn lemma_stops_at_first_accepted<P: ResponsePredicate>(
    set: PolicySet<P>,
    req: RequestDescriptor,
    h0: Seq<AttemptResult>,
    h: Seq<AttemptResult>,
    q0: Seq<ConnectRequest>,
    q: Seq<ConnectRequest>,
    res: Result<ResponseOutcome, TransportError>,
    j: int,
)
    requires
        retry_run_post(set, req, h0, h, q0, q, res),
        0 <= j < h.len() - h0.len(),
        accepted(set, h[h0.len() + j]),
        forall|i: int| 0 <= i < j ==> !accepted(set, #[trigger] h[h0.len() + i]),
    ensures
        h.len() - h0.len() == j + 1,
        h.last() == h[h0.len() + j],
        res is Ok,
        res == surfaced(h[h0.len() + j]),
{
}

/// Law: when the connector never failed but no success passed the policies,
/// the loop made exactly `max_retries + 1` calls and delivered the last
/// (invalid) outcome as a success, not as an error.
pub proof fn lemma_invalid_responses_exhaust_budget<P: ResponsePredicate>(
    set: PolicySet<P>,
    req: RequestDescriptor,
    h0: Seq<AttemptResult>,
    h: Seq<AttemptResult>,
    q0: Seq<ConnectRequest>,
    q: Seq<ConnectRequest>,
    res: Result<ResponseOutcome, TransportError>,
)
    requires
        retry_run_post(set, req, h0, h, q0, q, res),
        forall|i: int|
            h0.len() <= i < h.len()
                ==> (#[trigger] h[i]) is Success && !accepted(set, h[i]),
    ensures
        h.len() - h0.len() == set.max_retries + 1,
        res is Ok,
        res == surfaced(h.last()),
{
}

/// The retry-configured wrapper around a connector: the shared, immutable
/// policy set plus the inner connector it drives.
pub struct RetryService<C: Connector, P: ResponsePredicate> {
    pub inner: PolicySet<P>,
    pub connector: C,
}

impl<P: ResponsePredicate> Retry<P> {
    /// Wraps a connector with this retry configuration.
    pub fn new_transform<C: Connector>(self, service: C) -> (r: RetryService<C, P>)
        ensures
            r.inner == self.0,
            r.connector == service,
    {
        RetryService { inner: self.0, connector: service }
    }
}

impl<C: Connector, P: ResponsePredicate> RetryService<C, P> {
    /// Readiness simply delegates to the inner connector; this layer queues
    /// nothing of its own.
    pub fn poll_ready(&self) -> (r: bool)
        ensures
            r == self.connector.ready_spec(),
    {
        self.connector.is_ready()
    }

    /// Handles one request.  A client request with a replayable body goes
    /// through the attempt loop; a tunnel request or an unreplayable body is
    /// passed through to the connector exactly once, whatever the budget and
    /// policies say.
    pub fn call(&mut self, req: ConnectRequest) -> (res: Result<ResponseOutcome, TransportError>)
        ensures
            final(self).inner == old(self).inner,
            match req {
                ConnectRequest::Client(d) => if replayable(d.body) {
                    retry_run_post(
                        old(self).inner,
                        d,
                        old(self).connector.history(),
                        final(self).connector.history(),
                        old(self).connector.requests(),
                        final(self).connector.requests(),
                        res,
                    )
                } else {
                    single_shot_post(
                        old(self).connector.history(),
                        final(self).connector.history(),
                        old(self).connector.requests(),
                        final(self).connector.requests(),
                        req,
                        res,
                    )
                },
                ConnectRequest::Tunnel(_) => single_shot_post(
                    old(self).connector.history(),
                    final(self).connector.history(),
                    old(self).connector.requests(),
                    final(self).connector.requests(),
                    req,
                    res,
                ),
            },
    {
        match req {
            ConnectRequest::Client(desc) => {
                if desc.body.is_replayable() {
                    run_attempts(&self.inner, &desc, &mut self.connector)
                } else {
                    let r = self.connector.call(ConnectRequest::Client(desc));
                    match r {
                        AttemptResult::Success(o) => Ok(o),
                        AttemptResult::TransportFailure(e) => Err(e),
                    }
                }
            },
            ConnectRequest::Tunnel(head) => {
                let r = self.connector.call(ConnectRequest::Tunnel(head));
                match r {
                    AttemptResult::Success(o) => Ok(o),
                    AttemptResult::TransportFailure(e) => Err(e),
                }
            },
        }
    }
}

} // verus!
