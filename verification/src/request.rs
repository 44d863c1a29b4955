use vstd::prelude::*;

use crate::api_url;

verus! {

/// The HTTP verb of an outbound request.
#[derive(Clone, Copy, Debug, PartialEq, Eq, Structural)]
pub enum HttpMethod {
    Get,
    Post,
    Patch,
    Delete,
}

/// The body of an outbound request: none, JSON text, or form fields that the
/// HTTP client encodes as `application/x-www-form-urlencoded`.
pub enum RequestBody {
    Empty,
    Json(String),
    Form(Vec<(String, String)>),
}

/// Everything a request needs: the verb, the full URL, the headers in order,
/// and the body. The HTTP client sends it as it stands.
pub struct HttpRequest {
    pub method: HttpMethod,
    pub url: String,
    pub headers: Vec<(String, String)>,
    pub body: RequestBody,
}

/// The three headers sent on every JSON request: the JSON:API media type for
/// `Accept` and `Content-Type`, and the bearer token for `Authorization`.
pub open spec fn default_headers_of(h: Seq<(Seq<char>, Seq<char>)>, key: Seq<char>) -> bool {
    &&& h.len() == 3
    &&& h[0].0 == "Accept"@
    &&& h[0].1 == "application/vnd.api+json"@
    &&& h[1].0 == "Content-Type"@
    &&& h[1].1 == "application/vnd.api+json"@
    &&& h[2].0 == "Authorization"@
    &&& h[2].1 == "Bearer "@ + key
}

/// A GET of `path` under the base URL, with the default headers and no body.
pub open spec fn is_get(req: HttpRequest, key: Seq<char>, path: Seq<char>) -> bool {
    &&& req.method is Get
    &&& req.url@ == api_url() + path
    &&& default_headers_of(req.headers.deep_view(), key)
    &&& req.body is Empty
}

/// A DELETE of `path` under the base URL, with the default headers and no body.
pub open spec fn is_delete(req: HttpRequest, key: Seq<char>, path: Seq<char>) -> bool {
    &&& req.method is Delete
    &&& req.url@ == api_url() + path
    &&& default_headers_of(req.headers.deep_view(), key)
    &&& req.body is Empty
}

/// A POST of JSON text `body` to `path` under the base URL, with the default
/// headers.
pub open spec fn is_post(
    req: HttpRequest,
    key: Seq<char>,
    path: Seq<char>,
    body: Seq<char>,
) -> bool {
    &&& req.method is Post
    &&& req.url@ == api_url() + path
    &&& default_headers_of(req.headers.deep_view(), key)
    &&& req.body matches RequestBody::Json(s) && s@ == body
}

/// A PATCH of JSON text `body` to `path` under the base URL, with the default
/// headers.
pub open spec fn is_patch(
    req: HttpRequest,
    key: Seq<char>,
    path: Seq<char>,
    body: Seq<char>,
) -> bool {
    &&& req.method is Patch
    &&& req.url@ == api_url() + path
    &&& default_headers_of(req.headers.deep_view(), key)
    &&& req.body matches RequestBody::Json(s) && s@ == body
}

/// A POST of form fields to `path` under the base URL, with exactly the
/// caller-supplied headers.
pub open spec fn is_form_post(
    req: HttpRequest,
    path: Seq<char>,
    headers: Seq<(Seq<char>, Seq<char>)>,
    form: Seq<(Seq<char>, Seq<char>)>,
) -> bool {
    &&& req.method is Post
    &&& req.url@ == api_url() + path
    &&& req.headers.deep_view() == headers
    &&& req.body matches RequestBody::Form(f) && f.deep_view() == form
}

} // verus!
