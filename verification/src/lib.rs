pub mod errors;
pub mod modules;
pub mod json;
pub mod query;
pub mod request;
pub mod text;
pub mod types;
pub mod utils;

use vstd::prelude::*;

use crate::request::{
    default_headers_of, is_delete, is_form_post, is_get, is_patch, is_post, HttpMethod,
    HttpRequest, RequestBody,
};

verus! {

/// Fixed base of every request URL.
pub const API_URL: &'static str = "https://api.lemonsqueezy.com";

/// The base URL as a sequence of characters, for use in contracts.
pub open spec fn api_url() -> Seq<char> {
    "https://api.lemonsqueezy.com"@
}

/// The client configuration: the bearer token sent on every request.
pub struct LemonSqueezy {
    pub key: String,
}

impl LemonSqueezy {
    /// Builds a client configuration around an API key.
    pub fn new(key: String) -> (s: Self)
        ensures
            s.key == key,
    {
        LemonSqueezy { key }
    }

    /// Copies the configuration, key included.
    pub fn duplicate(&self) -> (s: Self)
        ensures
            s == *self,
    {
        LemonSqueezy { key: self.key.clone() }
    }

    /// Prefixes a path with the base URL.
    pub fn full_url(path: &str) -> (u: String)
        ensures
            u@ == api_url() + path@,
    {
        let mut u = String::from_str(API_URL);
        u.append(path);
        proof {
            assert(u@ =~= api_url() + path@);
        }
        u
    }

    /// The three default headers, in the order they are sent.
    pub fn default_headers(&self) -> (h: Vec<(String, String)>)
        ensures
            default_headers_of(h.deep_view(), self.key@),
    {
        let mut h: Vec<(String, String)> = Vec::new();
        h.push((String::from_str("Accept"), String::from_str("application/vnd.api+json")));
        h.push((String::from_str("Content-Type"), String::from_str("application/vnd.api+json")));
        let mut auth = String::from_str("Bearer ");
        auth.append(self.key.as_str());
        h.push((String::from_str("Authorization"), auth));
        proof {
            assert(h.deep_view().len() == 3);
            assert(h.deep_view()[0] == (h@[0].0@, h@[0].1@));
            assert(h.deep_view()[1] == (h@[1].0@, h@[1].1@));
            assert(h.deep_view()[2] == (h@[2].0@, h@[2].1@));
        }
        h
    }

    /// Describes a GET of `path` with the default headers and no body.
    pub fn get(&self, path: &str) -> (req: HttpRequest)
        ensures
            is_get(req, self.key@, path@),
    {
        HttpRequest {
            method: HttpMethod::Get,
            url: Self::full_url(path),
            headers: self.default_headers(),
            body: RequestBody::Empty,
        }
    }

    /// Describes a DELETE of `path` with the default headers and no body.
    pub fn delete(&self, path: &str) -> (req: HttpRequest)
        ensures
            is_delete(req, self.key@, path@),
    {
        HttpRequest {
            method: HttpMethod::Delete,
            url: Self::full_url(path),
            headers: self.default_headers(),
            body: RequestBody::Empty,
        }
    }

    /// Describes a POST of the given JSON text to `path` with the default
    /// headers.
    pub fn post(&self, path: &str, body: String) -> (req: HttpRequest)
        ensures
            is_post(req, self.key@, path@, body@),
    {
        HttpRequest {
            method: HttpMethod::Post,
            url: Self::full_url(path),
            headers: self.default_headers(),
            body: RequestBody::Json(body),
        }
    }

    /// Describes a PATCH of the given JSON text to `path` with the default
    /// headers.
    pub fn patch(&self, path: &str, body: String) -> (req: HttpRequest)
        ensures
            is_patch(req, self.key@, path@, body@),
    {
        HttpRequest {
            method: HttpMethod::Patch,
            url: Self::full_url(path),
            headers: self.default_headers(),
            body: RequestBody::Json(body),
        }
    }

    /// Describes a POST of form fields to `path`, with exactly the
    /// caller-supplied headers; the HTTP client form-encodes the fields.
    pub fn post_form(
        &self,
        path: &str,
        headers: Vec<(String, String)>,
        form: Vec<(String, String)>,
    ) -> (req: HttpRequest)
        ensures
            is_form_post(req, path@, headers.deep_view(), form.deep_view()),
    {
        HttpRequest {
            method: HttpMethod::Post,
            url: Self::full_url(path),
            headers,
            body: RequestBody::Form(form),
        }
    }
}

} // verus!
