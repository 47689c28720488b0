//! The errors of the planner.

use vstd::prelude::*;

verus! {

/// The failure that `serde_json` reports when it cannot serialize a value.
#[verifier::external_type_specification]
#[verifier::external_body]
pub struct ExSerializeError(serde_json::Error);

/// The failure that `bson` reports when raw bytes are not well-formed BSON.
#[verifier::external_type_specification]
#[verifier::external_body]
pub struct ExDecodeError(bson::raw::Error);

/// Why planning a request failed.
#[derive(Debug)]
pub enum QueryError {
    /// The request document is malformed; carries the decoder's error unchanged.
    Decode(bson::raw::Error),
    /// The term list could not be serialized for the backend call.
    Internal(serde_json::Error),
}

} // verus!
