//! Request generation: the configuration of one HTTP request stream and the
//! classification of responses into success or a typed failure.

use vstd::prelude::*;

verus! {

/// Produces one asynchronous, retryable-shaped unit of work: each call
/// yields a fresh, independent request attempt that resolves to success or a
/// typed failure. The runner is polymorphic over this capability, so other
/// protocols can be swapped in without changing it.
pub trait RequestGenerator {
    /// The typed failure a request attempt can resolve to.
    type Error;

    /// One awaitable request attempt.
    type Request: core::future::Future<Output = Result<(), Self::Error>>;

    /// A fresh request attempt; calling again yields an independent one.
    fn generate_request(&self) -> Self::Request;
}

/// A typed per-request failure. Per-request failures are recovered locally:
/// they only suppress that one observation's completion timestamp.
#[derive(Clone, Copy, PartialEq, Eq, Debug)]
pub enum RequestError {
    /// A network or protocol failure reaching the target.
    TransportError,
    /// The target was reached but answered with a non-OK status or an empty
    /// body.
    StatusError,
}

/// The method name given for a request stream is not a valid HTTP method.
#[derive(Clone, Copy, PartialEq, Eq, Debug)]
pub struct InvalidMethod;

/// Whether the HTTP client's method parser accepts `s` as a method token.
pub uninterp spec fn method_valid(s: Seq<char>) -> bool;

/// Relies on `reqwest::Method`'s `FromStr` impl (the `http` crate's method
/// parser): whether a string is a valid HTTP method token depends on its
/// characters alone.
#[verifier::external_body]
fn parse_method_valid(s: &str) -> (r: bool)
    ensures
        r == method_valid(s@),
{
    match <reqwest::Method as std::str::FromStr>::from_str(s) {
        Ok(_) => true,
        Err(_) => false,
    }
}

/// Whether a response proves a successful request: success exactly when the
/// status is 200 (OK) and the body is non-empty; anything else is a status
/// failure.
pub open spec fn spec_classify_response(status: u16, body_len: nat) -> Result<(), RequestError> {
    if status == 200 && body_len > 0 {
        Ok(())
    } else {
        Err(RequestError::StatusError)
    }
}

/// Classify a response, given its status code and body length.
pub fn classify_response(status: u16, body_len: usize) -> (r: Result<(), RequestError>)
    ensures
        r == spec_classify_response(status, body_len as nat),
{
    if status == 200 && body_len > 0 {
        Ok(())
    } else {
        Err(RequestError::StatusError)
    }
}

/// The configuration of one request stream: a target URL, a validated HTTP
/// method name, and optional pre-loaded JSON body bytes. Immutable and
/// cheaply duplicable; every worker of a sub-run derives from one value.
#[derive(Clone)]
pub struct SimpleJsonGetRequest {
    pub url: String,
    pub method: String,
    pub json_content: Option<Vec<u8>>,
}

impl SimpleJsonGetRequest {
    /// The stored method name was accepted by the HTTP client's parser.
    pub open spec fn wf(&self) -> bool {
        method_valid(self.method@)
    }

    /// Build a request stream's configuration, rejecting a method name the
    /// HTTP client's parser would not accept.
    pub fn new(json_content: Option<Vec<u8>>, url: String, method: &str) -> (r: Result<
        SimpleJsonGetRequest,
        InvalidMethod,
    >)
        ensures
            r is Ok <==> method_valid(method@),
            r is Ok ==> {
                &&& r->Ok_0.wf()
                &&& r->Ok_0.url == url
                &&& r->Ok_0.method@ == method@
                &&& r->Ok_0.json_content == json_content
            },
    {
        if parse_method_valid(method) {
            Ok(SimpleJsonGetRequest { url, method: method.to_owned(), json_content })
        } else {
            Err(InvalidMethod)
        }
    }
}

} // verus!
