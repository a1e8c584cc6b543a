//! The connection handler's decisions: turning the head lines read off one
//! connection into a structured request for the dispatcher, or into the error
//! that has the connection dropped.

use vstd::prelude::*;

use crate::codec::spec_method_token;
use crate::codec::spec_target_token;
use crate::codec::parse_request_line;
use crate::codec::request_line_ok;

verus! {

/// Why a connection is dropped without a response.
#[derive(Clone, Copy, Debug, PartialEq, Eq, Structural)]
pub enum ConnectionError {
    /// The connection closed before any non-empty line arrived.
    EmptyRequest,
    /// The first line did not parse as a request line.
    MalformedRequest,
}

/// A request as the dispatcher receives it. Bodies are never read off the
/// wire, so the body is always empty.
pub struct StructuredRequest {
    /// The method token of the request line.
    pub method: Vec<u8>,
    /// The target token of the request line.
    pub target: Vec<u8>,
    /// The body handed to the dispatcher; always empty.
    pub body: Vec<u8>,
}

/// Build the dispatcher's request from the head lines of one connection: all
/// non-empty lines read before the first blank line, the request line first.
///
/// A connection that sent nothing is reported as `EmptyRequest`; one whose
/// first line does not parse, as `MalformedRequest`. Either way the caller
/// drops the connection without writing a response, so nothing of a rejected
/// line ever reaches the dispatcher.
pub fn build_request(lines: &Vec<Vec<u8>>) -> (r: Result<StructuredRequest, ConnectionError>)
    ensures
        (r == Err::<StructuredRequest, ConnectionError>(ConnectionError::EmptyRequest)) <==> lines@.len() == 0,
        (r == Err::<StructuredRequest, ConnectionError>(ConnectionError::MalformedRequest)) <==> (
        lines@.len() > 0 && !request_line_ok(lines@[0]@)),
        (r is Ok) <==> (lines@.len() > 0 && request_line_ok(lines@[0]@)),
        (r matches Ok(req) ==> req.method@ == spec_method_token(lines@[0]@) && req.target@
            == spec_target_token(lines@[0]@) && req.body@ == Seq::<u8>::empty()),
{
    if lines.len() == 0 {
        return Err(ConnectionError::EmptyRequest);
    }
    match parse_request_line(&lines[0]) {
        Ok(raw) => Ok(
            StructuredRequest { method: raw.method, target: raw.target, body: Vec::new() },
        ),
        Err(_) => Err(ConnectionError::MalformedRequest),
    }
}

/// Connections are isolated: each request carries the target of its own
/// connection's request line, so two connections whose request lines name
/// different targets can never receive one another's request — and with it,
/// one another's response — from the dispatcher.
pub proof fn lemma_connection_isolation(
    r1: StructuredRequest,
    r2: StructuredRequest,
    l1: Seq<u8>,
    l2: Seq<u8>,
)
    requires
        r1.target@ == spec_target_token(l1),
        r2.target@ == spec_target_token(l2),
        spec_target_token(l1) != spec_target_token(l2),
    ensures
        r1.target@ != r2.target@,
{
}

} // verus!
