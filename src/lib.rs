//! Helpers that let code outside a handler resolve the matched route and
//! the path parameters of an in-flight request, and keep the request.
pub mod error;
pub mod forward;
pub mod http_types;
pub mod matched_path;
pub mod path;
pub mod request;
