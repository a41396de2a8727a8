//! Reading the JSON description of a surface, as a documentation tool
//! writes it.

use crate::error::PublicApiError;
use vstd::prelude::*;

verus! {

/// The description of a crate as the documentation tool's format has it:
/// the root of the JSON text. It is handed on as it was read.
#[verifier::external_type_specification]
#[verifier::external_body]
pub struct ExRustdocCrate(rustdoc_types::Crate);

/// Whether a text is the JSON description of a crate: whether
/// `serde_json::from_str` reads a `rustdoc_types::Crate` from it.
pub uninterp spec fn is_rustdoc_json(text: Seq<char>) -> bool;

/// Calls `serde_json::from_str` for a `rustdoc_types::Crate`. Nothing is
/// claimed of what was read, only that the call succeeds on the texts
/// that `is_rustdoc_json` names, which is how that name is defined.
#[verifier::external_body]
fn read_crate(text: &str) -> (r: Result<rustdoc_types::Crate, serde_json::Error>)
    ensures
        r is Ok <==> is_rustdoc_json(text@),
{
    serde_json::from_str::<rustdoc_types::Crate>(text)
}

/// What reading a description comes to, given what the parser returned:
/// the description itself, or the parser's error as an error of this
/// crate.
pub fn read_outcome(parsed: Result<rustdoc_types::Crate, serde_json::Error>) -> (r: Result<
    rustdoc_types::Crate,
    PublicApiError,
>)
    ensures
        match parsed {
            Ok(description) => r == Ok::<rustdoc_types::Crate, PublicApiError>(description),
            Err(error) => r == Err::<rustdoc_types::Crate, PublicApiError>(
                PublicApiError::SerdeJsonError(error),
            ),
        },
{
    match parsed {
        Ok(description) => Ok(description),
        Err(error) => Err(PublicApiError::SerdeJsonError(error)),
    }
}

/// Reads the JSON description of a crate. Fails with
/// [`PublicApiError::SerdeJsonError`] exactly if the text is no such
/// description.
pub fn crate_from_rustdoc_json_str(rustdoc_json_str: &str) -> (r: Result<
    rustdoc_types::Crate,
    PublicApiError,
>)
    ensures
        r is Ok <==> is_rustdoc_json(rustdoc_json_str@),
        r is Err ==> r->Err_0 is SerdeJsonError,
{
    read_outcome(read_crate(rustdoc_json_str))
}

} // verus!
