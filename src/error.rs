//! Errors of the library.
use vstd::prelude::*;

verus! {

/// Failures that the library reports to its callers.
#[derive(Debug)]
pub enum ApiError {
    /// A resource identity was built with an empty version or kind.
    DynamicType(String),
    /// A request was malformed: a missing admission request, an over-long field
    /// manager name, or a watch timeout past the server's ceiling.
    RequestValidation(String),
    /// A payload could not be encoded.
    SerdeError(serde_json::Error),
}

} // verus!
