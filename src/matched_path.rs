//! Resolving which route pattern matched a request.
//!
//! The extraction itself is asynchronous and is run by the caller; this
//! module decides what its outcome means and hands the request back.
use vstd::prelude::*;

use axum::extract::rejection::{MatchedPathMissing, MatchedPathRejection};
use axum::extract::MatchedPath;
use axum::http::Extensions;

use crate::error::Error;
use crate::http_types::{extensions_matched_path, recorded_matched_path};
use crate::request::{reassemble_after, reassemble_view, Request, RequestHead};

verus! {

/// What the route-match resolver reports for an extraction outcome: the
/// matched route, `None` when no match was recorded, or the rejection.
pub open spec fn matched_path_outcome(
    r: Result<MatchedPath, MatchedPathRejection>,
) -> Result<Option<MatchedPath>, Error<MatchedPathRejection>> {
    match r {
        Ok(p) => Ok(Some(p)),
        Err(MatchedPathRejection::MatchedPathMissing(_)) => Ok(None),
        Err(e) => Err(Error::Rejection(e)),
    }
}

/// Turns the outcome of the route-match extraction into the resolver's
/// result: the absence of a recorded match is no error.
pub fn classify_matched_path(
    r: Result<MatchedPath, MatchedPathRejection>,
) -> (o: Result<Option<MatchedPath>, Error<MatchedPathRejection>>)
    ensures
        o == matched_path_outcome(r),
{
    match r {
        Ok(p) => Ok(Some(p)),
        Err(MatchedPathRejection::MatchedPathMissing(_)) => Ok(None),
        Err(e) => Err(Error::Rejection(e)),
    }
}

/// Completes a resolution that ran on a side-channel map: the resolver's
/// result, paired with the map as the extraction left it.
pub fn matched_path_finish_extensions(
    outcome: Result<MatchedPath, MatchedPathRejection>,
    extensions: Extensions,
) -> (r: (Result<Option<MatchedPath>, Error<MatchedPathRejection>>, Extensions))
    ensures
        r.0 == matched_path_outcome(outcome),
        r.1 == extensions,
{
    (classify_matched_path(outcome), extensions)
}

/// Completes a resolution that ran on a request's side-channel map: the
/// resolver's result, paired with the request put back together from its
/// untouched metadata and body and the map as the extraction left it.
pub fn matched_path_finish_request<B>(
    outcome: Result<MatchedPath, MatchedPathRejection>,
    head: RequestHead,
    extensions: Extensions,
    body: B,
) -> (r: (Result<Option<MatchedPath>, Error<MatchedPathRejection>>, Request<B>))
    ensures
        r.0 == matched_path_outcome(outcome),
        r.1 == reassemble_view(head, extensions, body),
{
    let (outcome, req) = reassemble_after(outcome, head, extensions, body);
    (classify_matched_path(outcome), req)
}

/// Reads the route-match value already recorded in a side-channel map,
/// without running any extraction.
pub fn matched_path_from_extensions_without_from_request(
    extensions: &Extensions,
) -> (r: Option<MatchedPath>)
    ensures
        r == recorded_matched_path(*extensions),
{
    extensions_matched_path(extensions)
}

/// Reads the route-match value already recorded in a request's side-channel
/// map, without running any extraction.
pub fn matched_path_from_request_without_from_request<B>(req: &Request<B>) -> (r: Option<
    MatchedPath,
>)
    ensures
        r == recorded_matched_path(req.extensions),
{
    matched_path_from_extensions_without_from_request(req.extensions())
}

/// When the extraction finds no route match recorded for a request, the
/// resolver reports `None`, not an error, and hands back a request with the
/// same method, target, version, headers and body.
pub proof fn lemma_unrecorded_match_is_none<B>(
    head: RequestHead,
    extensions: Extensions,
    body: B,
    missing: MatchedPathMissing,
)
    ensures
        matched_path_outcome(Err(MatchedPathRejection::MatchedPathMissing(missing))) == Ok::<
            Option<MatchedPath>,
            Error<MatchedPathRejection>,
        >(None),
        reassemble_view(head, extensions, body).head == head,
        reassemble_view(head, extensions, body).body == body,
{
}

} // verus!
