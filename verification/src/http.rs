//! Plain descriptions of the HTTP exchanges that the client asks its
//! transport to carry out. Nothing here performs a request.

use crate::text::text_view;
use vstd::prelude::*;

verus! {

/// The status with which a server reports that a resource does not exist.
pub const NOT_FOUND: u16 = 404;

/// The status with which a server reports that a condition of the request
/// was not met.
pub const PRECONDITION_FAILED: u16 = 412;

/// The HTTP methods that the client uses.
#[derive(Clone, Copy, Debug, PartialEq, Eq, Structural)]
pub enum Method {
    /// The WebDAV property query.
    Propfind,
    Get,
    Put,
}

/// The mathematical model of a request.
pub struct RequestView {
    pub method: Method,
    pub url: Seq<char>,
    pub depth: Option<u8>,
    pub content_type: Option<Seq<char>>,
    pub if_none_match: bool,
    pub body: Option<Seq<char>>,
    pub username: Seq<char>,
    pub password: Seq<char>,
}

/// One request for the transport to send. `depth` is the value of the
/// `Depth` header, where the request carries one; `if_none_match` asks for the header `If-None-Match: *`;
/// `username` and `password` are sent as basic authentication.
#[derive(Debug, PartialEq, Eq)]
pub struct Request {
    pub method: Method,
    pub url: String,
    pub depth: Option<u8>,
    pub content_type: Option<String>,
    pub if_none_match: bool,
    pub body: Option<String>,
    pub username: String,
    pub password: String,
}

impl View for Request {
    type V = RequestView;

    open spec fn view(&self) -> RequestView {
        RequestView {
            method: self.method,
            url: self.url@,
            depth: self.depth,
            content_type: text_view(self.content_type),
            if_none_match: self.if_none_match,
            body: text_view(self.body),
            username: self.username@,
            password: self.password@,
        }
    }
}

/// The mathematical model of a response.
pub struct ResponseView {
    pub status: u16,
    pub url: Seq<char>,
    pub body: Seq<char>,
}

/// What the transport brought back: the status code, the URL that the
/// response finally came from, after any redirects, and the body as text.
#[derive(Debug, PartialEq, Eq)]
pub struct Response {
    pub status: u16,
    pub url: String,
    pub body: String,
}

impl View for Response {
    type V = ResponseView;

    open spec fn view(&self) -> ResponseView {
        ResponseView { status: self.status, url: self.url@, body: self.body@ }
    }
}

/// How an exchange ended.
#[derive(Debug, PartialEq, Eq)]
pub enum Outcome {
    /// The server answered, with whatever status.
    Answered(Response),
    /// The transport failed before a response arrived.
    Failed,
}

impl View for Outcome {
    type V = Option<ResponseView>;

    open spec fn view(&self) -> Option<ResponseView> {
        match self {
            Outcome::Answered(response) => Some(response@),
            Outcome::Failed => None,
        }
    }
}

/// Whether a status lies in the success range.
pub open spec fn is_success(status: u16) -> bool {
    200 <= status <= 299
}

} // verus!
