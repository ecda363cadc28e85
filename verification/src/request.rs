use vstd::prelude::*;
use vstd::string::StringExecFns;

verus! {

/// The HTTP methods a request can carry.
#[derive(Debug, Clone, Copy, PartialEq, Eq, Structural)]
pub enum Method {
    Get,
    Head,
    Post,
    Put,
    Delete,
    Connect,
    Options,
    Trace,
    Patch,
}

/// The fixed synthetic authority every request is addressed to: a Unix
/// socket has no real host or port, so one placeholder string is used
/// uniformly.
pub open spec fn authority_prefix() -> Seq<char> {
    "http://unix.socket"@
}

/// A fully determined request, ready to be put on the wire: method, absolute
/// URI, the headers in the order they are to be applied, and the body bytes.
/// An absent body is represented as an explicitly empty one, never as a
/// missing one.
#[derive(Debug)]
pub struct RequestPlan {
    pub method: Method,
    pub uri: String,
    pub headers: Vec<(String, String)>,
    pub body: Vec<u8>,
}

/// The URI for `endpoint`: the synthetic authority followed by the endpoint
/// verbatim — no normalization of any kind.
pub fn request_uri(endpoint: &str) -> (r: String)
    ensures
        r@ == authority_prefix() + endpoint@,
{
    String::from_str("http://unix.socket").concat(endpoint)
}

/// Assembles one request: the given method; the URI for `endpoint`; the
/// headers kept verbatim, in their given order (duplicates included); and
/// the body bytes, empty when no body was supplied.
pub fn build_request(
    endpoint: &str,
    method: Method,
    headers: Vec<(String, String)>,
    body: Option<Vec<u8>>,
) -> (plan: RequestPlan)
    ensures
        plan.method == method,
        plan.uri@ == authority_prefix() + endpoint@,
        plan.headers == headers,
        body matches Some(b) ==> plan.body == b,
        body is None ==> plan.body@ == Seq::<u8>::empty(),
{
    let body_bytes: Vec<u8> = match body {
        Some(b) => b,
        None => Vec::new(),
    };
    RequestPlan { method, uri: request_uri(endpoint), headers, body: body_bytes }
}

} // verus!
