//! What the forwarder takes from the HTTP stack: the request method, carried
//! through untouched, and the two status codes a reply can have.
//!
//! Nothing in this file is proved. Each item states, in its doc comment, what
//! is believed of the `hyper` item behind it.

use vstd::prelude::*;

verus! {

/// `hyper::Method`, the method of an HTTP request.
///
/// The forwarder never looks inside a method: it hands the inbound request's
/// method on to the outbound request. Two methods are equal in contracts when
/// they are the same value.
#[verifier::external_type_specification]
#[verifier::external_body]
pub struct ExMethod(hyper::Method);

/// The status of a reply that relays an upstream body.
///
/// Calls `hyper::Response::new` and reads the status back: a response built
/// without an explicit status carries `200 OK`.
#[verifier::external_body]
pub(crate) fn relayed_status() -> (code: u16)
    ensures
        code == 200,
{
    hyper::Response::new(()).status().as_u16()
}

/// The status of the fixed error reply.
///
/// Reads `hyper::StatusCode::INTERNAL_SERVER_ERROR` as a number, which is 500.
#[verifier::external_body]
pub(crate) fn server_error_status() -> (code: u16)
    ensures
        code == 500,
{
    hyper::StatusCode::INTERNAL_SERVER_ERROR.as_u16()
}

} // verus!
