//! The values of one request/response exchange.
//!
//! None of them outlives its exchange. Each has a view that contracts speak
//! of: texts as `Seq<char>`, bodies as `Seq<u8>`.

use vstd::prelude::*;
use hyper::Method;

verus! {

/// An inbound request, its body read to the end.
///
/// Headers are not kept: none is forwarded.
#[derive(Debug, PartialEq, Eq)]
pub struct InboundRequest {
    /// The method the client used.
    pub method: Method,
    /// The path the client asked for. It is recorded and never consulted:
    /// every request goes to the same upstream URL.
    pub path: String,
    /// The complete body, as opaque bytes.
    pub body: Vec<u8>,
}

/// View of an [`InboundRequest`].
pub ghost struct InboundRequestView {
    pub method: Method,
    pub path: Seq<char>,
    pub body: Seq<u8>,
}

impl View for InboundRequest {
    type V = InboundRequestView;

    open spec fn view(&self) -> InboundRequestView {
        InboundRequestView { method: self.method, path: self.path@, body: self.body@ }
    }
}

/// What the listener hands to the forwarder for one inbound request.
#[derive(Debug, PartialEq, Eq)]
pub enum Inbound {
    /// The request arrived and its body was read completely.
    Request(InboundRequest),
    /// The body could not be read to the end.
    Unreadable,
}

/// View of an [`Inbound`].
pub ghost enum InboundView {
    Request(InboundRequestView),
    Unreadable,
}

impl View for Inbound {
    type V = InboundView;

    open spec fn view(&self) -> InboundView {
        match self {
            Inbound::Request(req) => InboundView::Request(req@),
            Inbound::Unreadable => InboundView::Unreadable,
        }
    }
}

/// The request sent upstream on behalf of one inbound request.
#[derive(Debug, PartialEq, Eq)]
pub struct OutboundRequest {
    /// The inbound request's method.
    pub method: Method,
    /// The upstream target.
    pub url: String,
    /// The inbound request's body, byte for byte.
    pub body: Vec<u8>,
}

/// View of an [`OutboundRequest`].
pub ghost struct OutboundRequestView {
    pub method: Method,
    pub url: Seq<char>,
    pub body: Seq<u8>,
}

impl View for OutboundRequest {
    type V = OutboundRequestView;

    open spec fn view(&self) -> OutboundRequestView {
        OutboundRequestView { method: self.method, url: self.url@, body: self.body@ }
    }
}

/// How an outbound request ended.
#[derive(Debug, PartialEq, Eq)]
pub enum OutboundResult {
    /// The upstream answered, with this status and this body text.
    Response { status: u16, body: String },
    /// No usable response was obtained: the connection was refused, a name
    /// did not resolve, the call timed out, TLS failed, or the response body
    /// could not be read as text.
    TransportFailure,
}

/// View of an [`OutboundResult`].
pub ghost enum OutboundResultView {
    Response { status: u16, body: Seq<char> },
    TransportFailure,
}

impl View for OutboundResult {
    type V = OutboundResultView;

    open spec fn view(&self) -> OutboundResultView {
        match self {
            OutboundResult::Response { status, body } => OutboundResultView::Response {
                status: *status,
                body: body@,
            },
            OutboundResult::TransportFailure => OutboundResultView::TransportFailure,
        }
    }
}

/// The reply given to the client that made the inbound request.
#[derive(Debug, PartialEq, Eq)]
pub struct ProxyResponse {
    /// HTTP status code of the reply.
    pub status: u16,
    /// Body text of the reply.
    pub body: String,
}

/// View of a [`ProxyResponse`].
pub ghost struct ProxyResponseView {
    pub status: u16,
    pub body: Seq<char>,
}

impl View for ProxyResponse {
    type V = ProxyResponseView;

    open spec fn view(&self) -> ProxyResponseView {
        ProxyResponseView { status: self.status, body: self.body@ }
    }
}

/// What the forwarder wants done next for an inbound request.
#[derive(Debug, PartialEq, Eq)]
pub enum Step {
    /// Send this request upstream, then report how it ended.
    Send(OutboundRequest),
    /// Answer the caller with this reply; nothing is sent upstream.
    Reply(ProxyResponse),
}

/// View of a [`Step`].
pub ghost enum StepView {
    Send(OutboundRequestView),
    Reply(ProxyResponseView),
}

impl View for Step {
    type V = StepView;

    open spec fn view(&self) -> StepView {
        match self {
            Step::Send(out) => StepView::Send(out@),
            Step::Reply(reply) => StepView::Reply(reply@),
        }
    }
}

} // verus!
