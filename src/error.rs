//! The error that a resolver hands back beside the request it returns.
use vstd::prelude::*;

verus! {

/// A failure of the extraction step other than the value being absent.
#[derive(Debug)]
pub enum Error<T> {
    /// The framework's extractor rejected the request; its rejection is kept.
    Rejection(T),
}

impl<T> Error<T> {
    /// The rejection that the extractor produced.
    pub fn into_rejection(self) -> (r: T)
        ensures
            self == Error::Rejection(r),
    {
        match self {
            Error::Rejection(r) => r,
        }
    }
}

} // verus!
