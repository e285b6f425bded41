//! The forwarder: one inbound request in, one outbound request out, one
//! reply back.
//!
//! The forwarder keeps nothing between exchanges but the upstream target it
//! was made with. An exchange has two decisions, and each is a function here:
//! what to do with an inbound request ([`Forwarder::begin`]), and what to
//! answer once the outbound request has ended ([`Forwarder::finish`]). The
//! caller does the waiting in between. Where the transport is an ordinary
//! function, [`Forwarder::forward_request`] runs the whole exchange.

use vstd::prelude::*;
use crate::config::UpstreamTarget;
use crate::http_stack::{relayed_status, server_error_status};
use crate::message::{
    Inbound, InboundRequest, InboundRequestView, InboundView, OutboundRequest,
    OutboundRequestView, OutboundResult, OutboundResultView, ProxyResponse, ProxyResponseView,
    Step, StepView,
};

verus! {

/// The outbound request for `req`: its method and body, addressed to `target`.
pub open spec fn outbound_for(target: Seq<char>, req: InboundRequestView) -> OutboundRequestView {
    OutboundRequestView { method: req.method, url: target, body: req.body }
}

/// The fixed error reply.
pub open spec fn server_error_reply() -> ProxyResponseView {
    ProxyResponseView { status: 500, body: "Internal Server Error"@ }
}

/// The reply that relays `body`.
pub open spec fn relayed_reply(body: Seq<char>) -> ProxyResponseView {
    ProxyResponseView { status: 200, body }
}

/// The first decision: a request that was read is sent upstream, one that
/// could not be read is answered with the error reply.
pub open spec fn plan(target: Seq<char>, inbound: InboundView) -> StepView {
    match inbound {
        InboundView::Request(req) => StepView::Send(outbound_for(target, req)),
        InboundView::Unreadable => StepView::Reply(server_error_reply()),
    }
}

/// How an upstream answer counts: with its body read as text it is a
/// response, without it a transport failure.
pub open spec fn outcome_of(status: u16, text: Option<Seq<char>>) -> OutboundResultView {
    match text {
        Some(body) => OutboundResultView::Response { status, body },
        None => OutboundResultView::TransportFailure,
    }
}

/// The second decision: any response is relayed with a success status,
/// whatever status the upstream gave; a transport failure becomes the error
/// reply.
pub open spec fn reply_to(outcome: OutboundResultView) -> ProxyResponseView {
    match outcome {
        OutboundResultView::Response { status, body } => relayed_reply(body),
        OutboundResultView::TransportFailure => server_error_reply(),
    }
}

/// A whole exchange, with the upstream as a function from the request it
/// receives to how that request ends.
pub open spec fn exchange(
    target: Seq<char>,
    inbound: InboundView,
    upstream: spec_fn(OutboundRequestView) -> OutboundResultView,
) -> ProxyResponseView {
    match plan(target, inbound) {
        StepView::Send(out) => reply_to(upstream(out)),
        StepView::Reply(reply) => reply,
    }
}

/// The transport `send` behaves as `upstream`: however a call of it ends, it
/// ends as `upstream` says for the request it was given.
pub open spec fn answers_as<F: FnOnce(OutboundRequest) -> OutboundResult>(
    send: F,
    upstream: spec_fn(OutboundRequestView) -> OutboundResultView,
) -> bool {
    forall|out: OutboundRequest, outcome: OutboundResult|
        call_ensures(send, (out,), outcome) ==> outcome@ == upstream(out@)
}

impl ProxyResponse {
    /// The fixed error reply: status 500, body `Internal Server Error`.
    pub fn server_error() -> (reply: ProxyResponse)
        ensures
            reply@ == server_error_reply(),
    {
        ProxyResponse { status: server_error_status(), body: "Internal Server Error".to_owned() }
    }

    /// The reply that relays `body` with a success status.
    pub fn relayed(body: String) -> (reply: ProxyResponse)
        ensures
            reply@ == relayed_reply(body@),
    {
        ProxyResponse { status: relayed_status(), body }
    }
}

impl OutboundResult {
    /// Classifies an upstream answer. `text` is the response body read as
    /// text, or `None` where reading it failed.
    pub fn received(status: u16, text: Option<String>) -> (outcome: OutboundResult)
        ensures
            text matches Some(body) ==> outcome@ == outcome_of(status, Some(body@)),
            text is None ==> outcome@ == outcome_of(status, None),
    {
        match text {
            Some(body) => OutboundResult::Response { status, body },
            None => OutboundResult::TransportFailure,
        }
    }
}

/// A request handler bound to one upstream target.
pub struct Forwarder {
    target: UpstreamTarget,
}

impl View for Forwarder {
    type V = Seq<char>;

    /// The upstream URL.
    closed spec fn view(&self) -> Seq<char> {
        self.target@
    }
}

impl Forwarder {
    /// A forwarder that sends every request to `target`.
    pub fn new(target: UpstreamTarget) -> (forwarder: Forwarder)
        ensures
            forwarder@ == target@,
    {
        Forwarder { target }
    }

    /// The upstream target.
    pub fn target(&self) -> (target: &UpstreamTarget)
        ensures
            target@ == self@,
    {
        &self.target
    }

    /// Builds the outbound request for `req`.
    pub fn outbound(&self, req: InboundRequest) -> (out: OutboundRequest)
        ensures
            out@ == outbound_for(self@, req@),
    {
        OutboundRequest { method: req.method, url: self.target.as_str().to_owned(), body: req.body }
    }

    /// Decides what to do with an inbound request.
    pub fn begin(&self, inbound: Inbound) -> (step: Step)
        ensures
            step@ == plan(self@, inbound@),
    {
        match inbound {
            Inbound::Request(req) => Step::Send(self.outbound(req)),
            Inbound::Unreadable => Step::Reply(ProxyResponse::server_error()),
        }
    }

    /// Decides the reply once the outbound request has ended.
    pub fn finish(outcome: OutboundResult) -> (reply: ProxyResponse)
        ensures
            reply@ == reply_to(outcome@),
    {
        match outcome {
            OutboundResult::Response { status: _, body } => ProxyResponse::relayed(body),
            OutboundResult::TransportFailure => ProxyResponse::server_error(),
        }
    }

    /// Runs one exchange over the transport `send`.
    ///
    /// A request that was read is sent exactly once, and the reply is decided
    /// from how that one call ended; nothing is retried and nothing is
    /// answered from memory. A request that could not be read is answered
    /// without calling `send`. Where `send` behaves as a function `upstream`
    /// of the request, the reply is that of [`exchange`] with `upstream`.
    pub fn forward_request<F>(&self, inbound: Inbound, send: F) -> (reply: ProxyResponse) where
        F: FnOnce(OutboundRequest) -> OutboundResult,

        requires
            forall|out: OutboundRequest|
                plan(self@, inbound@) == StepView::Send(out@) ==> call_requires(send, (out,)),
        ensures
            match plan(self@, inbound@) {
                StepView::Send(planned) => exists|out: OutboundRequest, outcome: OutboundResult|
                    out@ == planned && call_ensures(send, (out,), outcome) && reply@ == reply_to(
                        outcome@,
                    ),
                StepView::Reply(planned) => reply@ == planned,
            },
            forall|upstream: spec_fn(OutboundRequestView) -> OutboundResultView|
                answers_as(send, upstream) ==> reply@ == exchange(self@, inbound@, upstream),
    {
        match self.begin(inbound) {
            Step::Send(out) => {
                let outcome = send(out);
                Forwarder::finish(outcome)
            },
            Step::Reply(reply) => reply,
        }
    }
}

} // verus!
