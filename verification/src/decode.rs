//! Notification decoding: from the base64 payload of a delivery envelope to
//! the asset name it carries.

use vstd::prelude::*;
use vstd::utf8::{decode_utf8, valid_utf8};

verus! {

/// Why a notification was rejected before any work was done.
#[derive(Clone, Copy, Debug, PartialEq, Eq, Structural)]
pub enum DecodeError {
    /// The payload is not valid base64.
    Encoding,
    /// The decoded bytes are not valid UTF-8.
    Charset,
    /// The decoded text is not valid JSON.
    Format,
    /// The JSON document has no string field `name`.
    MissingField,
    /// The asset name yields no usable identifiers.
    BadIdentifier,
}

/// What base64's standard-alphabet decoder returns for `s`: the decoded
/// bytes, or `None` where `s` is not valid base64.
pub uninterp spec fn base64_decoding(s: Seq<char>) -> Option<Seq<u8>>;

/// Whether serde_json parses `text` as a JSON document.
pub uninterp spec fn json_wellformed(text: Seq<char>) -> bool;

/// The string value of the top-level field `field` of the JSON document
/// `text`; `None` where the field is absent or not a string. Meaningful only
/// where `json_wellformed(text)` holds.
pub uninterp spec fn json_string_field(text: Seq<char>, field: Seq<char>) -> Option<Seq<char>>;

/// Relies on `base64::engine::general_purpose::STANDARD`'s `Engine::decode`:
/// the outcome depends on the input characters alone.
#[verifier::external_body]
fn decode_base64(s: &str) -> (r: Option<Vec<u8>>)
    ensures
        match r {
            Some(bytes) => base64_decoding(s@) == Some(bytes@),
            None => base64_decoding(s@) is None,
        },
{
    base64::Engine::decode(&base64::engine::general_purpose::STANDARD, s).ok()
}

/// Relies on `String::from_utf8`: `Ok` exactly on valid UTF-8, returning the
/// decoded text.
#[verifier::external_body]
fn utf8_to_string(bytes: Vec<u8>) -> (r: Option<String>)
    ensures
        r is Some <==> valid_utf8(bytes@),
        r matches Some(s) ==> s@ == decode_utf8(bytes@),
{
    String::from_utf8(bytes).ok()
}

/// Relies on `serde_json::from_str::<Value>`, `Value::get` and
/// `Value::as_str`: whether the text parses, and what string its top-level
/// `field` holds, depend on the arguments alone. The outer `Option` is the
/// parse outcome, the inner one the field lookup.
#[verifier::external_body]
fn parse_string_field(text: &str, field: &str) -> (r: Option<Option<String>>)
    ensures
        r is Some <==> json_wellformed(text@),
        r matches Some(f) ==> match f {
            Some(s) => json_string_field(text@, field@) == Some(s@),
            None => json_string_field(text@, field@) is None,
        },
{
    match serde_json::from_str::<serde_json::Value>(text) {
        Ok(v) => Some(v.get(field).and_then(|x| x.as_str()).map(|s| s.to_owned())),
        Err(_) => None,
    }
}

/// The asset name carried by the payload `data`, or the first failure on the
/// way to it: base64, then UTF-8, then JSON, then the `name` field.
pub open spec fn notification_name(data: Seq<char>) -> Result<Seq<char>, DecodeError> {
    match base64_decoding(data) {
        None => Err(DecodeError::Encoding),
        Some(bytes) => if !valid_utf8(bytes) {
            Err(DecodeError::Charset)
        } else {
            let text = decode_utf8(bytes);
            if !json_wellformed(text) {
                Err(DecodeError::Format)
            } else {
                match json_string_field(text, "name"@) {
                    None => Err(DecodeError::MissingField),
                    Some(n) => Ok(n),
                }
            }
        },
    }
}

/// Decodes a delivery payload to the asset name it names, with the exact
/// failure of `notification_name` when any stage rejects it. No side
/// effects: a rejected payload has caused no store, transfer, or conversion
/// work.
pub fn decode_notification(data: &str) -> (r: Result<String, DecodeError>)
    ensures
        r is Ok <==> notification_name(data@) is Ok,
        r matches Ok(name) ==> notification_name(data@) == Ok::<Seq<char>, DecodeError>(name@),
        r matches Err(e) ==> notification_name(data@) == Err::<Seq<char>, DecodeError>(e),
{
    let bytes = match decode_base64(data) {
        Some(bytes) => bytes,
        None => {
            return Err(DecodeError::Encoding);
        },
    };
    let text = match utf8_to_string(bytes) {
        Some(text) => text,
        None => {
            return Err(DecodeError::Charset);
        },
    };
    match parse_string_field(text.as_str(), "name") {
        None => Err(DecodeError::Format),
        Some(None) => Err(DecodeError::MissingField),
        Some(Some(name)) => Ok(name),
    }
}

} // verus!
