//! Clients of the remote services and of the local colour tooling.
//!
//! Each client plans what is sent and reads what comes back; sending and
//! receiving are left to the caller.

use vstd::prelude::*;

pub mod comfyui;
pub mod jwst_api;
pub mod jwst_esa;
pub mod ollama;
pub mod ssh_tunnel;
pub mod wallust;

verus! {

/// What a server answered to one HTTP request.
#[derive(Debug, Clone, PartialEq, Eq)]
pub struct HttpReply {
    /// The status code of the answer.
    pub status: u16,
    /// The body of the answer, as text.
    pub body: String,
}

impl HttpReply {
    /// The status is one of the success codes, 200 to 299.
    pub open spec fn succeeded(self) -> bool {
        200 <= self.status < 300
    }

    /// Whether the status is one of the success codes, 200 to 299.
    pub fn is_success(&self) -> (r: bool)
        ensures
            r == self.succeeded(),
    {
        200 <= self.status && self.status < 300
    }
}

/// Why a request to a service came to nothing.
#[derive(Debug, Clone, PartialEq, Eq)]
pub enum ServiceError {
    /// The service has no base URL yet: its tunnel is not established.
    NotConnected,
    /// The server answered with a status that is no success; the body of its
    /// answer is kept as it came.
    Rejected { status: u16, body: String },
    /// The answer was a success but lacks what the request asked for.
    Protocol,
    /// The path of a file to send has no file name.
    InvalidFileName,
}

/// The method of an HTTP request.
#[derive(Debug, Clone, Copy, PartialEq, Eq)]
pub enum Method {
    Get,
    Post,
    Delete,
}

/// What goes along with a request as its body.
#[derive(Debug, Clone, PartialEq, Eq)]
pub enum Payload {
    /// Nothing.
    Empty,
    /// The JSON object `{"clear": true}`.
    Clear,
    /// The JSON object `{"name": ...}` with the given name.
    Name(String),
}

/// An HTTP request that a client asks its caller to send.
#[derive(Debug, Clone, PartialEq, Eq)]
pub struct Request {
    pub method: Method,
    pub url: String,
    pub payload: Payload,
}

/// The URL of `path` below a base URL, once there is one.
pub open spec fn url_below(base_url: Option<String>, path: Seq<char>) -> Option<Seq<char>> {
    match base_url {
        Some(base) => Some(base@ + path),
        None => None,
    }
}

/// What a request for `path` below a base URL has to look like: it has the
/// given method and payload, and there is none while there is no base URL.
pub open spec fn request_fits(
    r: Result<Request, ServiceError>,
    base_url: Option<String>,
    method: Method,
    path: Seq<char>,
    payload: Payload,
) -> bool {
    match url_below(base_url, path) {
        Some(url) => r matches Ok(req) && req.method == method && req.url@ == url && req.payload
            == payload,
        None => r == Err::<Request, ServiceError>(ServiceError::NotConnected),
    }
}

/// A request with the given method for `path` below a base URL.
pub fn request_below(base_url: &Option<String>, method: Method, path: &str, payload: Payload) -> (r:
    Result<Request, ServiceError>)
    ensures
        request_fits(r, *base_url, method, path@, payload),
{
    match base_url {
        Some(base) => Ok(Request { method, url: chain(base.as_str(), path), payload }),
        None => Err(ServiceError::NotConnected),
    }
}

/// What an answer that is only checked for success amounts to.
pub open spec fn plain_answer(reply: HttpReply) -> Result<(), ServiceError> {
    if reply.succeeded() {
        Ok(())
    } else {
        Err(ServiceError::Rejected { status: reply.status, body: reply.body })
    }
}

/// Reads an answer that is only checked for success.
pub fn read_plain(reply: &HttpReply) -> (r: Result<(), ServiceError>)
    ensures
        r == plain_answer(*reply),
{
    if reply.is_success() {
        Ok(())
    } else {
        Err(ServiceError::Rejected { status: reply.status, body: reply.body.clone() })
    }
}

/// `a` followed by `b`.
pub fn chain(a: &str, b: &str) -> (r: String)
    ensures
        r@ == a@ + b@,
{
    let mut r = String::from_str(a);
    r.append(b);
    r
}

} // verus!
