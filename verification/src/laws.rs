//! What holds of every exchange, proved from the definitions in
//! [`crate::forwarder`].

use vstd::prelude::*;
use crate::forwarder::{
    exchange, outbound_for, outcome_of, plan, relayed_reply, reply_to, server_error_reply,
};
use crate::message::{
    InboundRequestView, InboundView, OutboundRequestView, OutboundResultView, StepView,
};

verus! {

/// The outbound requests issued while `inbounds` are handled one after
/// another: one for each request that was read, in order of arrival.
pub open spec fn calls_for(target: Seq<char>, inbounds: Seq<InboundView>) -> Seq<
    OutboundRequestView,
>
    decreases inbounds.len(),
{
    if inbounds.len() == 0 {
        Seq::empty()
    } else {
        let earlier = calls_for(target, inbounds.drop_last());
        match plan(target, inbounds.last()) {
            StepView::Send(out) => earlier.push(out),
            StepView::Reply(_) => earlier,
        }
    }
}

/// Relay: when the upstream answers the forwarded request with body `body`,
/// the caller gets exactly `body`, with a success status. This holds for
/// every method and every request body, and for every upstream status.
pub proof fn law_upstream_body_is_relayed(
    target: Seq<char>,
    req: InboundRequestView,
    upstream: spec_fn(OutboundRequestView) -> OutboundResultView,
    status: u16,
    body: Seq<char>,
)
    requires
        upstream(outbound_for(target, req)) == (OutboundResultView::Response { status, body }),
    ensures
        exchange(target, InboundView::Request(req), upstream) == relayed_reply(body),
        exchange(target, InboundView::Request(req), upstream).body == body,
        exchange(target, InboundView::Request(req), upstream).status == 200,
{
}

/// Unreachable upstream: when no outbound request gets a response, every
/// inbound request is answered with status 500 and the body
/// `Internal Server Error`.
pub proof fn law_unreachable_upstream_is_server_error(
    target: Seq<char>,
    inbound: InboundView,
    upstream: spec_fn(OutboundRequestView) -> OutboundResultView,
)
    requires
        forall|out: OutboundRequestView| #[trigger] upstream(out) is TransportFailure,
    ensures
        exchange(target, inbound, upstream) == server_error_reply(),
        exchange(target, inbound, upstream).status == 500,
        exchange(target, inbound, upstream).body == "Internal Server Error"@,
{
}

/// Two outcomes: every exchange ends either in the fixed error reply or in
/// the relay of a body that the upstream gave for the forwarded request.
pub proof fn law_reply_is_relay_or_error(
    target: Seq<char>,
    inbound: InboundView,
    upstream: spec_fn(OutboundRequestView) -> OutboundResultView,
)
    ensures
        exchange(target, inbound, upstream) == server_error_reply() || (inbound matches InboundView::Request(
            req,
        ) && upstream(outbound_for(target, req)) matches OutboundResultView::Response { body, .. }
            && exchange(target, inbound, upstream) == relayed_reply(body)),
{
}

/// Status pass-through: the upstream's status never reaches the caller. Two
/// responses with the same body get the same reply, whatever their statuses.
pub proof fn law_upstream_status_is_dropped(first: u16, second: u16, body: Seq<char>)
    ensures
        reply_to(OutboundResultView::Response { status: first, body }) == reply_to(
            OutboundResultView::Response { status: second, body },
        ),
{
}

/// Unreadable answer: an upstream response whose body cannot be read as text
/// is answered like a failed transport, whatever its status.
pub proof fn law_unreadable_answer_is_server_error(status: u16)
    ensures
        reply_to(outcome_of(status, None)) == server_error_reply(),
{
}

/// Path independence: the path plays no part. Requests that agree in method
/// and body are forwarded as the same outbound request, addressed to the
/// target exactly as configured, and so get the same reply.
pub proof fn law_path_is_ignored(
    target: Seq<char>,
    first: InboundRequestView,
    second: InboundRequestView,
    upstream: spec_fn(OutboundRequestView) -> OutboundResultView,
)
    requires
        first.method == second.method,
        first.body == second.body,
    ensures
        outbound_for(target, first).url == target,
        outbound_for(target, first) == outbound_for(target, second),
        exchange(target, InboundView::Request(first), upstream) == exchange(
            target,
            InboundView::Request(second),
            upstream,
        ),
{
}

/// No caching: requests that were read are forwarded one for one. Handling
/// `reqs` in order issues as many outbound requests as there are requests,
/// the i-th being the outbound request for the i-th of them, whether or not
/// the same request came before.
pub proof fn law_every_request_is_sent(target: Seq<char>, reqs: Seq<InboundRequestView>)
    ensures
        calls_for(target, reqs.map_values(|r: InboundRequestView| InboundView::Request(r)))
            == reqs.map_values(|r: InboundRequestView| outbound_for(target, r)),
    decreases reqs.len(),
{
    let inbounds = reqs.map_values(|r: InboundRequestView| InboundView::Request(r));
    let sent = reqs.map_values(|r: InboundRequestView| outbound_for(target, r));
    if reqs.len() > 0 {
        law_every_request_is_sent(target, reqs.drop_last());
        assert(inbounds.drop_last() == reqs.drop_last().map_values(
            |r: InboundRequestView| InboundView::Request(r),
        ));
        assert(sent == reqs.drop_last().map_values(
            |r: InboundRequestView| outbound_for(target, r),
        ).push(outbound_for(target, reqs.last())));
    }
}

/// No retries: handling `inbounds` never issues more outbound requests than
/// there are inbound requests, and a request that could not be read adds
/// none.
pub proof fn law_at_most_one_call_per_request(target: Seq<char>, inbounds: Seq<InboundView>)
    ensures
        calls_for(target, inbounds).len() <= inbounds.len(),
        calls_for(target, inbounds.push(InboundView::Unreadable)) == calls_for(target, inbounds),
    decreases inbounds.len(),
{
    if inbounds.len() > 0 {
        law_at_most_one_call_per_request(target, inbounds.drop_last());
    }
    assert(inbounds.push(InboundView::Unreadable).drop_last() == inbounds);
}

/// The same request twice is two outbound requests, equal to each other.
pub proof fn law_repeated_request_is_sent_twice(target: Seq<char>, req: InboundRequestView)
    ensures
        calls_for(target, seq![InboundView::Request(req), InboundView::Request(req)]) == seq![
            outbound_for(target, req),
            outbound_for(target, req),
        ],
{
    let reqs = seq![req, req];
    law_every_request_is_sent(target, reqs);
    assert(reqs.map_values(|r: InboundRequestView| InboundView::Request(r)) == seq![
        InboundView::Request(req),
        InboundView::Request(req),
    ]);
    assert(reqs.map_values(|r: InboundRequestView| outbound_for(target, r)) == seq![
        outbound_for(target, req),
        outbound_for(target, req),
    ]);
}

} // verus!
