//! The errors of the account API.
use vstd::prelude::*;

verus! {

#[verifier::external_type_specification]
#[verifier::external_body]
pub struct ExJsonError(serde_json::Error);

/// What can go wrong on the way to a typed result.
#[derive(Debug)]
pub enum ApiError {
    /// The transport failed; the text describes how.
    Http(String),
    /// A JSON body could not be written or a response could not be read.
    Json(serde_json::Error),
    /// The balance response held no account record.
    EmptyResponse,
    /// A credential needed to build the client was not supplied.
    MissingCredential,
}

} // verus!
