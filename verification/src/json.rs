//! Step one of reading a credential: the stored bytes must be JSON.
//!
//! The bytes are decoded and written back in compact form, so that what
//! reaches the next step is well-formed whatever layout was stored. Any JSON
//! value passes here; whether it is a service-account document is decided
//! later.

use vstd::prelude::*;

use crate::error::{either_text, text_or_error, PipelineError, PipelineErrorView};

verus! {

/// What precedes the description of a decoding error.
pub const JSON_ERROR_PREFIX: &'static str = "got parse json error:";

/// What `serde_json` makes of a byte string: `Ok` with the compact text of the
/// decoded value, or `Err` with the decoding error written out.
pub uninterp spec fn json_normal_form(bytes: Seq<u8>) -> Result<Seq<char>, Seq<char>>;

/// Decodes `bytes` with `serde_json::from_slice` as a `serde_json::Value`. A
/// decoded value is handed back as its `Display` impl writes it (compact JSON),
/// an error as its `Debug` impl writes it.
///
/// Trusted: the outcome depends on the bytes alone, which is all that the
/// contract claims by giving it a name. Nothing is claimed about which bytes
/// decode or what the text looks like.
#[verifier::external_body]
pub(crate) fn reserialize(bytes: &[u8]) -> (decoded: Result<String, String>)
    ensures
        either_text(decoded) == json_normal_form(bytes@),
{
    match serde_json::from_slice::<serde_json::Value>(bytes) {
        Ok(value) => Ok(value.to_string()),
        Err(error) => Err(format!("{error:?}")),
    }
}

/// The document that a decoding outcome stands for: the text as it is, or a
/// format error that carries the decoder's description.
pub open spec fn document_of(decoded: Result<Seq<char>, Seq<char>>) -> Result<
    Seq<char>,
    PipelineErrorView,
> {
    match decoded {
        Ok(text) => Ok(text),
        Err(detail) => Err(PipelineErrorView::CredentialFormat(JSON_ERROR_PREFIX@ + detail)),
    }
}

/// Sorts a decoding outcome into document or pipeline error.
pub fn check_decoded(decoded: Result<String, String>) -> (document: Result<String, PipelineError>)
    ensures
        text_or_error(document) == document_of(either_text(decoded)),
{
    match decoded {
        Ok(text) => Ok(text),
        Err(detail) => Err(
            PipelineError::CredentialFormat(JSON_ERROR_PREFIX.to_owned().concat(detail.as_str())),
        ),
    }
}

/// Reads `bytes` as JSON and gives the value back in compact form.
pub fn normalize(bytes: &[u8]) -> (document: Result<String, PipelineError>)
    ensures
        text_or_error(document) == document_of(json_normal_form(bytes@)),
{
    check_decoded(reserialize(bytes))
}

} // verus!
