//! Trusted access to serde_json: decoding a text frame and looking up a key.

use vstd::prelude::*;

verus! {

#[verifier::external_type_specification]
#[verifier::external_body]
pub struct ExValue(serde_json::Value);

#[verifier::external_type_specification]
#[verifier::external_body]
pub struct ExJsonError(serde_json::Error);

/// The document that a text decodes to, or `None` where the text is not
/// well-formed JSON.
pub uninterp spec fn json_decode(text: Seq<char>) -> Option<serde_json::Value>;

/// Whether a document is an object holding the given key.
pub uninterp spec fn json_has_key(doc: serde_json::Value, key: Seq<char>) -> bool;

/// Relies on serde_json::from_str: it decodes a text into a `Value` or
/// fails, depending on the text alone.
#[verifier::external_body]
pub(crate) fn decode(text: &str) -> (r: Result<serde_json::Value, serde_json::Error>)
    ensures
        match r {
            Ok(doc) => json_decode(text@) == Some(doc),
            Err(_) => json_decode(text@) is None,
        },
{
    serde_json::from_str::<serde_json::Value>(text)
}

/// Relies on serde_json::Value::get with a string index: `Some` exactly when
/// the value is an object that holds the key.
#[verifier::external_body]
pub(crate) fn has_key(doc: &serde_json::Value, key: &str) -> (r: bool)
    ensures
        r == json_has_key(*doc, key@),
{
    doc.get(key).is_some()
}

} // verus!
