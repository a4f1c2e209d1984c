//! A request as the resolvers see it: its metadata, its side-channel map
//! and its body, with the split and reassembly that the resolvers run
//! around the extraction step.
use vstd::prelude::*;

use axum::http::{Extensions, HeaderMap, HeaderValue, Method, Uri, Version};

verus! {

/// The metadata of a request that the resolvers never change.
pub struct RequestHead {
    pub method: Method,
    pub uri: Uri,
    pub version: Version,
    pub headers: HeaderMap<HeaderValue>,
}

/// A request: metadata, the side-channel map, and a body.
pub struct Request<B> {
    pub head: RequestHead,
    pub extensions: Extensions,
    pub body: B,
}

/// The three pieces that a request is split into.
pub open spec fn split_view<B>(req: Request<B>) -> (RequestHead, Extensions, B) {
    (req.head, req.extensions, req.body)
}

/// The request that the three pieces are put back together into.
pub open spec fn reassemble_view<B>(head: RequestHead, extensions: Extensions, body: B) -> Request<B> {
    Request { head, extensions, body }
}

impl<B> Request<B> {
    /// Builds a request from its metadata, side-channel map and body.
    pub fn from_parts(head: RequestHead, extensions: Extensions, body: B) -> (r: Request<B>)
        ensures
            r == reassemble_view(head, extensions, body),
    {
        Request { head, extensions, body }
    }

    /// Splits the request into its metadata, side-channel map and body.
    pub fn into_parts(self) -> (r: (RequestHead, Extensions, B))
        ensures
            r == split_view(self),
    {
        (self.head, self.extensions, self.body)
    }

    /// The side-channel map of the request.
    pub fn extensions(&self) -> (r: &Extensions)
        ensures
            *r == self.extensions,
    {
        &self.extensions
    }
}

/// Puts a request back together after an extraction step that ran on its
/// side-channel map alone, and pairs it with that step's outcome, whether
/// the step succeeded or not.
pub fn reassemble_after<T, E, B>(
    outcome: Result<T, E>,
    head: RequestHead,
    extensions: Extensions,
    body: B,
) -> (r: (Result<T, E>, Request<B>))
    ensures
        r.0 == outcome,
        r.1 == reassemble_view(head, extensions, body),
{
    (outcome, Request::from_parts(head, extensions, body))
}

/// Splitting a request and putting it back together keeps its method,
/// target, version, headers and body, whatever the side-channel map became
/// in between; with the map unchanged it gives back the same request.
pub proof fn lemma_split_then_reassemble<B>(req: Request<B>, extensions: Extensions)
    ensures
        ({
            let (head, _, body) = split_view(req);
            let back = reassemble_view(head, extensions, body);
            &&& back.head.method == req.head.method
            &&& back.head.uri == req.head.uri
            &&& back.head.version == req.head.version
            &&& back.head.headers == req.head.headers
            &&& back.body == req.body
            &&& back.extensions == extensions
        }),
        reassemble_view(split_view(req).0, split_view(req).1, split_view(req).2) == req,
{
}

} // verus!
