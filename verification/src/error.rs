//! What can go wrong: the text of a surface description may not parse.

use vstd::prelude::*;

verus! {

/// The error of the JSON parser: where in the text it gave up, and why.
#[verifier::external_type_specification]
#[verifier::external_body]
pub struct ExJsonError(serde_json::Error);

/// The errors of this crate.
#[derive(Debug)]
pub enum PublicApiError {
    /// The text is no JSON description of a surface. Typically it was
    /// written in a version of the format other than the one read here.
    SerdeJsonError(serde_json::Error),
}

} // verus!
