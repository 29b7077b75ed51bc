//! The wire shape for cloud requests: a destination URL, a method, a
//! header mapping and an arbitrary byte body, built up by consuming
//! builder steps.

use vstd::prelude::*;

verus! {

/// Relies on the `url` crate's `Url` type: a parsed URL record. The core
/// only carries such values through; it never inspects them.
#[verifier::external_type_specification]
#[verifier::external_body]
pub struct ExUrl(url::Url);

/// The HTTP method of a request.
#[derive(Debug, Clone, Copy, PartialEq, Eq, Structural)]
pub enum NetworkMethod {
    Post,
    Get,
}

/// One outbound network request. Header keys are kept in the order they
/// were supplied; later entries are intended to override earlier ones.
#[derive(Debug)]
pub struct NetworkRequest {
    pub url: url::Url,
    pub method: NetworkMethod,
    pub headers: Vec<(String, String)>,
    pub body: Vec<u8>,
}

impl NetworkRequest {
    /// A POST request to `url` with no headers and an empty body.
    pub fn new_post(url: url::Url) -> (r: Self)
        ensures
            r.url == url,
            r.method == NetworkMethod::Post,
            r.headers@ =~= Seq::<(String, String)>::empty(),
            r.body@ =~= Seq::<u8>::empty(),
    {
        Self { url, method: NetworkMethod::Post, headers: Vec::new(), body: Vec::new() }
    }

    /// Appends `headers` after the ones already present.
    pub fn with_headers(self, headers: Vec<(String, String)>) -> (r: Self)
        ensures
            r.url == self.url,
            r.method == self.method,
            r.headers@ == self.headers@ + headers@,
            r.body == self.body,
    {
        let mut out = self;
        let mut more = headers;
        out.headers.append(&mut more);
        out
    }

    /// Replaces the body with exactly `body`.
    pub fn with_body(self, body: Vec<u8>) -> (r: Self)
        ensures
            r.url == self.url,
            r.method == self.method,
            r.headers == self.headers,
            r.body == body,
    {
        let mut out = self;
        out.body = body;
        out
    }
}

} // verus!
