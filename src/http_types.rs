//! Declarations of the HTTP framework's types that the library carries,
//! and the few calls into the framework that the library makes.
use vstd::prelude::*;

use axum::extract::rejection::{
    FailedToDeserializePathParams, MatchedPathMissing, MatchedPathRejection, MissingPathParams,
    PathRejection,
};
use axum::extract::{MatchedPath, Path};
use axum::http::{Extensions, HeaderMap, HeaderValue, Method, StatusCode, Uri, Version};

verus! {

#[verifier::external_type_specification]
#[verifier::external_body]
pub struct ExMethod(Method);

#[verifier::external_type_specification]
#[verifier::external_body]
pub struct ExUri(Uri);

#[verifier::external_type_specification]
#[verifier::external_body]
pub struct ExVersion(Version);

#[verifier::external_type_specification]
#[verifier::external_body]
pub struct ExStatusCode(StatusCode);

#[verifier::external_type_specification]
#[verifier::external_body]
#[verifier::reject_recursive_types(T)]
pub struct ExHeaderMap<T>(HeaderMap<T>);

#[verifier::external_type_specification]
#[verifier::external_body]
pub struct ExHeaderValue(HeaderValue);

#[verifier::external_type_specification]
#[verifier::external_body]
pub struct ExExtensions(Extensions);

#[verifier::external_type_specification]
#[verifier::external_body]
pub struct ExMatchedPath(MatchedPath);

#[verifier::external_type_specification]
#[verifier::external_body]
#[verifier::reject_recursive_types(T)]
pub struct ExPath<T>(Path<T>);

#[verifier::external_type_specification]
#[verifier::external_body]
pub struct ExMatchedPathMissing(MatchedPathMissing);

#[verifier::external_type_specification]
pub struct ExMatchedPathRejection(MatchedPathRejection);

#[verifier::external_type_specification]
#[verifier::external_body]
pub struct ExMissingPathParams(MissingPathParams);

#[verifier::external_type_specification]
#[verifier::external_body]
pub struct ExFailedToDeserializePathParams(FailedToDeserializePathParams);

#[verifier::external_type_specification]
pub struct ExPathRejection(PathRejection);

/// The route-match value that a side-channel map holds, if any: its entry
/// under the `MatchedPath` type.
pub uninterp spec fn recorded_matched_path(e: Extensions) -> Option<MatchedPath>;

/// Relies on `http::Extensions::get::<MatchedPath>` and on `MatchedPath`'s
/// derived `Clone`: a copy of the entry stored under that type, or `None`
/// when there is none. The map is only read.
#[verifier::external_body]
pub(crate) fn extensions_matched_path(e: &Extensions) -> (r: Option<MatchedPath>)
    ensures
        r == recorded_matched_path(*e),
{
    e.get::<MatchedPath>().cloned()
}

} // verus!
