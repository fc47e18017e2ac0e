//! HTTP requests as plain values.
//!
//! The crate performs no network I/O. It describes each request that the
//! caller is to send, and the caller hands back what the service answered.

use vstd::prelude::*;

verus! {

/// The method of a request.
#[derive(Clone, Copy, Debug, PartialEq, Eq, Structural)]
pub enum HttpMethod {
    Get,
    Post,
}

/// A request for the caller to send.
#[derive(Clone, Debug)]
pub struct HttpRequest {
    pub method: HttpMethod,
    pub url: String,
    /// The credential to send as `Authorization: Bearer`, where the request
    /// carries one.
    pub bearer_token: Option<String>,
    /// The other headers, each a name and a value, in the order to set them.
    pub headers: Vec<(String, String)>,
    /// The document to send as the body, where the request has one.
    pub json: Option<serde_json::Value>,
}

/// A request as a mathematical value.
pub struct HttpRequestView {
    pub method: HttpMethod,
    pub url: Seq<char>,
    pub bearer_token: Option<Seq<char>>,
    pub headers: Seq<(Seq<char>, Seq<char>)>,
    pub json: Option<serde_json::Value>,
}

impl View for HttpRequest {
    type V = HttpRequestView;

    open spec fn view(&self) -> HttpRequestView {
        HttpRequestView {
            method: self.method,
            url: self.url@,
            bearer_token: self.bearer_token.deep_view(),
            headers: self.headers.deep_view(),
            json: self.json,
        }
    }
}

/// The header that asks for a JSON answer.
pub open spec fn spec_accept_json() -> (Seq<char>, Seq<char>) {
    ("Accept"@, "application/json"@)
}

/// The header that announces a JSON body.
pub open spec fn spec_content_type_json() -> (Seq<char>, Seq<char>) {
    ("Content-Type"@, "application/json"@)
}

/// Appends a header to a list of headers.
pub(crate) fn push_header(headers: &mut Vec<(String, String)>, name: &str, value: &str)
    ensures
        final(headers).deep_view() == old(headers).deep_view().push((name@, value@)),
{
    headers.push((String::from_str(name), String::from_str(value)));
}

} // verus!
