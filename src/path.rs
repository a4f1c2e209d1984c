//! Decoding a request's path parameters into a typed value.
//!
//! The decoding itself is asynchronous and is run by the caller; this module
//! decides what its outcome means and hands the request back.
use vstd::prelude::*;

use axum::extract::rejection::{MissingPathParams, PathRejection};
use axum::extract::Path;
use axum::http::Extensions;

use crate::error::Error;
use crate::request::{reassemble_after, reassemble_view, Request, RequestHead};

verus! {

/// What the path resolver reports for a decoding outcome: the decoded
/// value, `None` when the route declares no path parameters, or the
/// rejection.
pub open spec fn path_outcome<T>(r: Result<Path<T>, PathRejection>) -> Result<
    Option<Path<T>>,
    Error<PathRejection>,
> {
    match r {
        Ok(p) => Ok(Some(p)),
        Err(PathRejection::MissingPathParams(_)) => Ok(None),
        Err(e) => Err(Error::Rejection(e)),
    }
}

/// Turns the outcome of the path decoding into the resolver's result: a
/// route without path parameters is no error, a failed decoding is.
pub fn classify_path<T>(r: Result<Path<T>, PathRejection>) -> (o: Result<
    Option<Path<T>>,
    Error<PathRejection>,
>)
    ensures
        o == path_outcome(r),
{
    match r {
        Ok(p) => Ok(Some(p)),
        Err(PathRejection::MissingPathParams(_)) => Ok(None),
        Err(e) => Err(Error::Rejection(e)),
    }
}

/// Completes a decoding that ran on a side-channel map: the resolver's
/// result, paired with the map as the decoding left it.
pub fn path_finish_extensions<T>(outcome: Result<Path<T>, PathRejection>, extensions: Extensions) -> (r: (
    Result<Option<Path<T>>, Error<PathRejection>>,
    Extensions,
))
    ensures
        r.0 == path_outcome(outcome),
        r.1 == extensions,
{
    (classify_path(outcome), extensions)
}

/// Completes a decoding that ran on a request's side-channel map: the
/// resolver's result, paired with the request put back together from its
/// untouched metadata and body and the map as the decoding left it.
pub fn path_finish_request<T, B>(
    outcome: Result<Path<T>, PathRejection>,
    head: RequestHead,
    extensions: Extensions,
    body: B,
) -> (r: (Result<Option<Path<T>>, Error<PathRejection>>, Request<B>))
    ensures
        r.0 == path_outcome(outcome),
        r.1 == reassemble_view(head, extensions, body),
{
    let (outcome, req) = reassemble_after(outcome, head, extensions, body);
    (classify_path(outcome), req)
}

/// A route that declares no path parameters gives `None`, not an error.
pub proof fn lemma_missing_params_is_none<T>(missing: MissingPathParams)
    ensures
        path_outcome(Err::<Path<T>, PathRejection>(PathRejection::MissingPathParams(missing)))
            == Ok::<Option<Path<T>>, Error<PathRejection>>(None),
{
}

/// A decoding failure other than the absence of path parameters is handed
/// to the caller as an error, together with a request that keeps the
/// method, target, version, headers and body it came with.
pub proof fn lemma_failure_keeps_request<T, B>(
    rejection: PathRejection,
    head: RequestHead,
    extensions: Extensions,
    body: B,
)
    requires
        !(rejection is MissingPathParams),
    ensures
        path_outcome(Err::<Path<T>, PathRejection>(rejection)) == Err::<
            Option<Path<T>>,
            Error<PathRejection>,
        >(Error::Rejection(rejection)),
        reassemble_view(head, extensions, body).head == head,
        reassemble_view(head, extensions, body).body == body,
{
}

} // verus!
