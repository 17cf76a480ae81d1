//! The JSON boundary: the generic parsed value type and the parser are used,
//! not reimplemented. Parsing is deterministic in the input bytes, so the
//! parser's outcome is named and every contract above speaks of that name.

use vstd::prelude::*;

verus! {

#[verifier::external_type_specification]
#[verifier::external_body]
pub struct ExJsonValue(serde_json::Value);

#[verifier::external_type_specification]
#[verifier::external_body]
pub struct ExJsonError(serde_json::Error);

/// What the JSON parser yields on a byte sequence: `Some` with the parsed
/// generic value where the bytes are valid JSON, `None` where they are not.
pub uninterp spec fn json_of(bytes: Seq<u8>) -> Option<serde_json::Value>;

/// Relies on serde_json::de::from_slice for `serde_json::Value`: parsing
/// depends on the input bytes alone, succeeds exactly on valid JSON, and
/// returns the parsed generic value.
#[verifier::external_body]
pub fn parse_json(bytes: &[u8]) -> (r: Result<serde_json::Value, serde_json::Error>)
    ensures
        r is Ok <==> json_of(bytes@) is Some,
        r matches Ok(v) ==> json_of(bytes@) == Some(v),
{
    serde_json::de::from_slice::<serde_json::Value>(bytes)
}

} // verus!
