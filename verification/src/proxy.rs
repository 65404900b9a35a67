//! What the proxy answers as long as it does not forward requests.

use vstd::prelude::*;

use crate::text::join_two;
use crate::time::Timestamp;
use crate::usage::UsageEvent;
#[allow(unused_imports)]
use crate::usage::UsageEventView;

verus! {

/// The HTTP status for what is not implemented.
pub const NOT_IMPLEMENTED: u16 = 501;

/// The answer to a request.
#[derive(Debug)]
pub struct ProxyReply {
    pub status: u16,
    pub body: String,
}

/// The event that a request leaves at the time `now`: a use of no model, of no
/// tokens and at no cost.
pub open spec fn placeholder_usage(now: Timestamp) -> UsageEventView {
    UsageEventView {
        timestamp: now,
        model: "proxy-placeholder"@,
        prompt_tokens: 0,
        completion_tokens: 0,
        total_tokens: 0,
        cost_usd_bits: 0,
    }
}

/// The text of the answer to a request, which names where it would go.
pub open spec fn placeholder_body(upstream_base_url: Seq<char>) -> Seq<char> {
    "codex-usage-proxy scaffold running. Upstream target: "@ + upstream_base_url
}

/// The event that a request at the time `now` leaves, and the answer to it.
pub fn proxy_placeholder(upstream_base_url: &str, now: Timestamp) -> (handled: (
    UsageEvent,
    ProxyReply,
))
    ensures
        handled.0@ == placeholder_usage(now),
        handled.0.timestamp == now,
        handled.0.model@ == "proxy-placeholder"@,
        handled.0.prompt_tokens == 0 && handled.0.completion_tokens == 0 && handled.0.total_tokens
            == 0 && handled.0.cost_usd_bits == 0,
        handled.1.status == NOT_IMPLEMENTED,
        handled.1.status == 501,
        handled.1.body@ == placeholder_body(upstream_base_url@),
        handled.1.body@ == "codex-usage-proxy scaffold running. Upstream target: "@
            + upstream_base_url@,
{
    let event = UsageEvent {
        timestamp: now,
        model: "proxy-placeholder".to_owned(),
        prompt_tokens: 0,
        completion_tokens: 0,
        total_tokens: 0,
        cost_usd_bits: 0,
    };
    let body: String = join_two(
        "codex-usage-proxy scaffold running. Upstream target: ",
        upstream_base_url,
    );
    (event, ProxyReply { status: NOT_IMPLEMENTED, body })
}

/// The answer tells of each upstream by its whole name: answers are the same
/// only where the upstreams are.
pub proof fn law_answers_name_the_upstream(a: Seq<char>, b: Seq<char>)
    ensures
        placeholder_body(a) == "codex-usage-proxy scaffold running. Upstream target: "@ + a,
        placeholder_body(a) == placeholder_body(b) ==> a == b,
{
    let head = "codex-usage-proxy scaffold running. Upstream target: "@;
    assert(placeholder_body(a).skip(head.len() as int) =~= a);
    assert(placeholder_body(b).skip(head.len() as int) =~= b);
}

/// A request leaves an event of its own time, and nothing else about it differs
/// from one request to another.
pub proof fn law_requests_leave_their_time(a: Timestamp, b: Timestamp)
    ensures
        placeholder_usage(a).timestamp == a,
        placeholder_usage(b) == (UsageEventView { timestamp: b, ..placeholder_usage(a) }),
        placeholder_usage(a).model == "proxy-placeholder"@,
        placeholder_usage(a).prompt_tokens == 0,
        placeholder_usage(a).completion_tokens == 0,
        placeholder_usage(a).total_tokens == 0,
        placeholder_usage(a).cost_usd_bits == 0,
{
}

} // verus!
