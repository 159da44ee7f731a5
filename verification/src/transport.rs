//! Requests and responses as plain values.
//!
//! The library describes each HTTP exchange and reads its answer; sending is
//! left to whoever drives it.

use crate::json::{parsed_json, Json, JsonValue};
use vstd::prelude::*;

verus! {

/// The HTTP methods that the API uses.
#[derive(Debug, Clone, Copy, PartialEq, Eq, Structural)]
pub enum Method {
    Get,
    Post,
}

impl DeepView for Method {
    type V = Method;

    open spec fn deep_view(&self) -> Method {
        *self
    }
}

/// One HTTP request: where it goes, the headers it carries, and the JSON
/// document that is its body, if it has one.
#[derive(Debug, Clone, PartialEq, Eq)]
pub struct Request {
    pub method: Method,
    pub url: String,
    pub headers: Vec<(String, String)>,
    pub body: Option<Json>,
}

/// The value of a [`Request`].
pub struct RequestView {
    pub method: Method,
    pub url: Seq<char>,
    pub headers: Seq<(Seq<char>, Seq<char>)>,
    pub body: Option<JsonValue>,
}

impl DeepView for Request {
    type V = RequestView;

    open spec fn deep_view(&self) -> RequestView {
        RequestView {
            method: self.method,
            url: self.url@,
            headers: self.headers.deep_view(),
            body: self.body.deep_view(),
        }
    }
}

/// One HTTP response: its status code and the JSON document in its body.
/// `body` is `None` where the body was no JSON text.
#[derive(Debug, Clone, PartialEq, Eq)]
pub struct Response {
    pub status: u16,
    pub body: Option<Json>,
}

/// The value of a [`Response`].
pub struct ResponseView {
    pub status: u16,
    pub body: Option<JsonValue>,
}

impl ResponseView {
    /// Whether the status code is one of 200 to 299.
    pub open spec fn is_success(self) -> bool {
        200 <= self.status < 300
    }
}

impl DeepView for Response {
    type V = ResponseView;

    open spec fn deep_view(&self) -> ResponseView {
        ResponseView { status: self.status, body: self.body.deep_view() }
    }
}

impl Response {
    /// The response with this status code and this body text.
    pub fn new(status: u16, body: &[u8]) -> (r: Response)
        ensures
            r.deep_view() == (ResponseView { status, body: parsed_json(body@) }),
    {
        Response { status, body: Json::parse(body) }
    }

    /// Whether the status code is one of 200 to 299.
    pub fn is_success(&self) -> (r: bool)
        ensures
            r == self.deep_view().is_success(),
    {
        200 <= self.status && self.status < 300
    }
}

/// Appends a header to a list of headers.
pub fn push_header(headers: &mut Vec<(String, String)>, name: &str, value: String)
    ensures
        final(headers).deep_view() == old(headers).deep_view().push((name@, value@)),
{
    headers.push((name.to_owned(), value));
    assert(final(headers).deep_view() =~= old(headers).deep_view().push((name@, value@)));
}

/// An empty list of headers.
pub fn no_headers() -> (r: Vec<(String, String)>)
    ensures
        r.deep_view() == Seq::<(Seq<char>, Seq<char>)>::empty(),
{
    let r: Vec<(String, String)> = Vec::new();
    assert(r.deep_view() =~= Seq::empty());
    r
}

} // verus!
