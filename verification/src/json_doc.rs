//! JSON documents, parsed by `serde_json`.

use vstd::prelude::*;

verus! {

/// Declares `serde_json::Value` to the verifier as an opaque type.
#[verifier::external_type_specification]
#[verifier::external_body]
pub struct ExJsonValue(serde_json::Value);

/// Why `serde_json::from_slice::<serde_json::Value>` refuses `body`, as the
/// `Display` text of its error, or `None` when it accepts the bytes.
pub uninterp spec fn json_parse_failure(body: Seq<u8>) -> Option<Seq<char>>;

/// The string that `serde_json::Value::get(key)` finds in the document parsed
/// from `body`, or `None` when the document is no object, lacks the member or
/// the member is not a string.
pub uninterp spec fn json_string_member(body: Seq<u8>, key: Seq<char>) -> Option<Seq<char>>;

/// A JSON document kept together with the bytes it was parsed from. Values of
/// this type are made only by `parse_json`.
pub struct JsonDocument {
    inner: serde_json::Value,
    source: Ghost<Seq<u8>>,
}

impl View for JsonDocument {
    type V = Seq<u8>;

    closed spec fn view(&self) -> Seq<u8> {
        self.source@
    }
}

/// Calls `serde_json::from_slice::<serde_json::Value>`. The contract claims
/// that the call succeeds exactly when `json_parse_failure` names no failure,
/// and that a failure is reported by the `Display` text of the error.
#[verifier::external_body]
pub(crate) fn parse_json(body: &[u8]) -> (r: Result<JsonDocument, String>)
    ensures
        match r {
            Ok(d) => json_parse_failure(body@) is None && d@ == body@,
            Err(m) => json_parse_failure(body@) == Some(m@),
        },
{
    match serde_json::from_slice::<serde_json::Value>(body) {
        Ok(inner) => Ok(JsonDocument { inner, source: Ghost(body@) }),
        Err(e) => Err(e.to_string()),
    }
}

/// Calls `serde_json::Value::get(key)` and keeps the member when it is a
/// string. The contract claims that the result is `json_string_member` of the
/// bytes the document was parsed from.
#[verifier::external_body]
pub(crate) fn string_member(doc: &JsonDocument, key: &str) -> (r: Option<String>)
    ensures
        match r {
            Some(s) => json_string_member(doc@, key@) == Some(s@),
            None => json_string_member(doc@, key@) is None,
        },
{
    match doc.inner.get(key) {
        Some(serde_json::Value::String(s)) => Some(s.clone()),
        _ => None,
    }
}

} // verus!
