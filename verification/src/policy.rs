use vstd::prelude::*;

use crate::outcome::ResponseHead;

verus! {

/// A pluggable acceptance rule over a response head, the shape a custom
/// retry policy takes.  Users implement this to supply their own rule; the
/// executable check must agree with the rule's specification.
pub trait ResponsePredicate: Sized {
    /// The rule itself, as a predicate on the response head.
    spec fn accepts_spec(&self, head: ResponseHead) -> bool;

    /// Evaluates the rule on one response head.
    fn accepts(&self, head: &ResponseHead) -> (r: bool)
        ensures
            r == self.accepts_spec(*head);
}

/// The predicate that accepts every response; the neutral custom rule, and
/// the predicate type to name when only status policies are configured.
pub struct AcceptAll;

impl ResponsePredicate for AcceptAll {
    open spec fn accepts_spec(&self, head: ResponseHead) -> bool {
        true
    }

    fn accepts(&self, head: &ResponseHead) -> (r: bool) {
        true
    }
}

/// The stock rule for "retry on server errors": accepts any response whose
/// status is below 500.
pub struct RejectServerErrors;

impl ResponsePredicate for RejectServerErrors {
    open spec fn accepts_spec(&self, head: ResponseHead) -> bool {
        head.status < 500
    }

    fn accepts(&self, head: &ResponseHead) -> (r: bool) {
        head.status < 500
    }
}

/// One acceptance rule: accept only the listed status codes, or defer to a
/// custom predicate.
pub enum RetryPolicy<P: ResponsePredicate> {
    Status(Vec<u16>),
    Custom(P),
}

/// Whether one policy accepts a response head.
pub open spec fn policy_accepts<P: ResponsePredicate>(p: RetryPolicy<P>, head: ResponseHead) -> bool {
    match p {
        RetryPolicy::Status(codes) => codes@.contains(head.status),
        RetryPolicy::Custom(q) => q.accepts_spec(head),
    }
}

fn status_allowed(codes: &Vec<u16>, status: u16) -> (r: bool)
    ensures
        r == codes@.contains(status),
{
    let mut i: usize = 0;
    while i < codes.len()
        invariant
            i <= codes.len(),
            forall|j: int| 0 <= j < i ==> codes@[j] != status,
        decreases codes.len() - i,
    {
        if codes[i] == status {
            return true;
        }
        i += 1;
    }
    false
}

/// A retry budget together with the ordered list of acceptance rules that a
/// response must pass.  Built once, then shared read-only by every request.
pub struct PolicySet<P: ResponsePredicate> {
    /// Number of retries: each request is attempted at most `max_retries + 1` times.
    pub max_retries: u8,
    pub policies: Vec<RetryPolicy<P>>,
}

impl<P: ResponsePredicate> PolicySet<P> {
    /// A response is valid exactly when every configured policy accepts its
    /// head; an empty policy list accepts everything.
    pub open spec fn is_valid_response_spec(&self, head: ResponseHead) -> bool {
        forall|i: int|
            0 <= i < self.policies@.len() ==> policy_accepts(#[trigger] self.policies@[i], head)
    }

    /// Evaluates every policy against the given response head, in
    /// registration order, stopping at the first that rejects.
    pub fn is_valid_response(&self, head: &ResponseHead) -> (r: bool)
        ensures
            r == self.is_valid_response_spec(*head),
    {
        let mut i: usize = 0;
        while i < self.policies.len()
            invariant
                i <= self.policies.len(),
                forall|j: int| 0 <= j < i ==> policy_accepts(#[trigger] self.policies@[j], *head),
            decreases self.policies.len() - i,
        {
            let ok = match &self.policies[i] {
                RetryPolicy::Status(codes) => status_allowed(codes, head.status),
                RetryPolicy::Custom(p) => p.accepts(head),
            };
            if !ok {
                return false;
            }
            i += 1;
        }
        true
    }
}

/// Anything that can be turned into one retry policy: a list of acceptable
/// status codes, or a ready-made policy value.
pub trait IntoRetryPolicy<P: ResponsePredicate>: Sized {
    /// The policy this value stands for.
    spec fn into_policy_spec(self) -> RetryPolicy<P>;

    /// Turns this value into the policy it stands for.
    fn into_policy(self) -> (r: RetryPolicy<P>)
        ensures
            r == self.into_policy_spec();
}

impl<P: ResponsePredicate> IntoRetryPolicy<P> for Vec<u16> {
    open spec fn into_policy_spec(self) -> RetryPolicy<P> {
        RetryPolicy::Status(self)
    }

    fn into_policy(self) -> (r: RetryPolicy<P>) {
        RetryPolicy::Status(self)
    }
}

impl<P: ResponsePredicate> IntoRetryPolicy<P> for RetryPolicy<P> {
    open spec fn into_policy_spec(self) -> RetryPolicy<P> {
        self
    }

    fn into_policy(self) -> (r: RetryPolicy<P>) {
        self
    }
}

/// Builder for a retry configuration: a retry budget plus policies appended
/// one at a time, in the order they will be evaluated.
pub struct Retry<P: ResponsePredicate>(pub PolicySet<P>);

impl<P: ResponsePredicate> Retry<P> {
    /// A configuration with the given retry budget and no policies yet.
    pub fn new(retries: u8) -> (r: Retry<P>)
        ensures
            r.0.max_retries == retries,
            r.0.policies@.len() == 0,
    {
        Retry(PolicySet { max_retries: retries, policies: Vec::new() })
    }

    /// Appends one policy; policies are evaluated in the order they were added.
    pub fn policy<T: IntoRetryPolicy<P>>(self, p: T) -> (r: Retry<P>)
        ensures
            r.0.max_retries == self.0.max_retries,
            r.0.policies@ == self.0.policies@.push(p.into_policy_spec()),
    {
        let mut s = self;
        let pol = p.into_policy();
        s.0.policies.push(pol);
        s
    }
}

} // verus!
