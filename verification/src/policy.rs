//! The request-interception policy: a pure, total decision function that
//! classifies one intercepted network request by its resource type and
//! either lets it proceed or fails it with a reason the interception
//! channel can report back to the browser.

use vstd::prelude::*;

verus! {

/// Classification that a DevTools-style interception channel assigns to a
/// network request before it is paused for a decision.
#[derive(Clone, Copy, Debug, PartialEq, Eq, Structural)]
pub enum ResourceType {
    Document,
    Stylesheet,
    Image,
    Media,
    Font,
    Script,
    TextTrack,
    Xhr,
    Fetch,
    Prefetch,
    EventSource,
    WebSocket,
    Manifest,
    SignedExchange,
    Ping,
    CspViolationReport,
    Preflight,
    FedCm,
    Other,
}

/// One paused network request, as handed to the policy by the
/// interception channel: its resource classification and the opaque
/// identifier the channel uses to correlate the decision with the
/// pending request.
#[derive(Clone, Debug)]
pub struct InterceptedRequest {
    pub resource_type: ResourceType,
    pub request_id: String,
}

/// Why a request was refused.  The policy only ever refuses on its own
/// account, so a single classification suffices.
#[derive(Clone, Copy, Debug, PartialEq, Eq, Structural)]
pub enum DenyReason {
    BlockedByClient,
}

/// The policy's verdict on one paused request.  `Allow` lets the request
/// proceed unmodified; `Deny` fails it, echoing the request identifier so
/// the channel can correlate the refusal.
#[derive(Clone, Debug, PartialEq, Eq)]
pub enum InterceptDecision {
    Allow,
    Deny { reason: DenyReason, request_id: String },
}

/// The fixed allow-set: only top-level documents, scripts and XHR traffic
/// may proceed.  Everything else (stylesheets, images, fonts, and any
/// classification introduced in the future) is refused, the conservative
/// default.
pub open spec fn in_allow_set(t: ResourceType) -> bool {
    t is Document || t is Script || t is Xhr
}

/// What the policy decides for one request: `Allow` exactly on the
/// allow-set, otherwise `Deny` with reason `BlockedByClient` and the
/// request's own identifier echoed back.
pub open spec fn spec_decide(req: InterceptedRequest) -> InterceptDecision {
    if in_allow_set(req.resource_type) {
        InterceptDecision::Allow
    } else {
        InterceptDecision::Deny {
            reason: DenyReason::BlockedByClient,
            request_id: req.request_id,
        }
    }
}

/// The interception policy.  It carries no state: every decision is a
/// function of the one request under consideration, so the policy may be
/// invoked reentrantly and concurrently from a callback context without
/// synchronization.
#[derive(Clone, Copy, Debug)]
pub struct InterceptionPolicy {}

impl InterceptionPolicy {
    pub fn new() -> (p: InterceptionPolicy) {
        InterceptionPolicy {}
    }

    /// Decide one paused request.  Total: every resource type maps to a
    /// decision, and the result is exactly `spec_decide` of the input.
    pub fn decide(&self, req: &InterceptedRequest) -> (d: InterceptDecision)
        ensures
            d == spec_decide(*req),
    {
        match req.resource_type {
            ResourceType::Document | ResourceType::Script | ResourceType::Xhr => {
                InterceptDecision::Allow
            },
            _ => InterceptDecision::Deny {
                reason: DenyReason::BlockedByClient,
                request_id: req.request_id.clone(),
            },
        }
    }
}

/// Law: every request whose resource type lies in the allow-set is
/// allowed through unmodified.
pub proof fn lemma_allow_set_is_allowed(req: InterceptedRequest)
    requires
        in_allow_set(req.resource_type),
    ensures
        spec_decide(req) is Allow,
{
}

/// Law: every request whose resource type lies outside the allow-set is
/// denied with reason `BlockedByClient`, and the decision echoes the
/// request's own identifier.
pub proof fn lemma_outside_allow_set_is_denied(req: InterceptedRequest)
    requires
        !in_allow_set(req.resource_type),
    ensures
        spec_decide(req) matches InterceptDecision::Deny { reason, request_id }
            && reason == DenyReason::BlockedByClient
            && request_id == req.request_id,
{
}

/// Law: the policy is deterministic.  Any two decisions that meet
/// `decide`'s postcondition for the same request are equal, so repeated
/// calls on identical input yield identical output.
pub proof fn lemma_decide_deterministic(
    req: InterceptedRequest,
    d1: InterceptDecision,
    d2: InterceptDecision,
)
    requires
        d1 == spec_decide(req),
        d2 == spec_decide(req),
    ensures
        d1 == d2,
{
}

/// The decisions for a whole sequence of paused requests, each taken in
/// isolation.
pub open spec fn spec_decide_all(reqs: Seq<InterceptedRequest>) -> Seq<InterceptDecision> {
    reqs.map_values(|req: InterceptedRequest| spec_decide(req))
}

/// Law: the policy leaks no state between calls.  In a run over any
/// sequence of requests, the decision at each position is exactly the
/// decision the policy gives that request in isolation, whatever came
/// before or after it.
pub proof fn lemma_decisions_independent(reqs: Seq<InterceptedRequest>, i: int)
    requires
        0 <= i < reqs.len(),
    ensures
        spec_decide_all(reqs)[i] == spec_decide(reqs[i]),
{
}

/// Decide a whole batch of paused requests, in order.  Each element of
/// the result is the isolated decision for the corresponding request.
pub fn decide_all(policy: &InterceptionPolicy, reqs: &Vec<InterceptedRequest>) -> (ds: Vec<
    InterceptDecision,
>)
    ensures
        ds@ == spec_decide_all(reqs@),
{
    let mut ds: Vec<InterceptDecision> = Vec::new();
    let mut i: usize = 0;
    while i < reqs.len()
        invariant
            0 <= i <= reqs.len(),
            ds@ =~= spec_decide_all(reqs@).take(i as int),
        decreases reqs.len() - i,
    {
        let d = policy.decide(&reqs[i]);
        ds.push(d);
        assert(ds@ =~= spec_decide_all(reqs@).take(i as int + 1));
        i = i + 1;
    }
    assert(spec_decide_all(reqs@).take(reqs@.len() as int) =~= spec_decide_all(reqs@));
    ds
}

} // verus!
