//! Trusted boundary to the serialization crates: field lookup in JSON
//! text and the base64 payload encoding handed to the external renderer.
//!
//! The JSON names below are uninterpreted: each stands for the value an
//! extraction returns on given text, so that contracts built on them are
//! exact without restating the JSON grammar.

use base64::Engine;
use vstd::prelude::*;

verus! {

/// The string value at `key` in the JSON object `text`, if `text` parses
/// as JSON and holds a string there.
pub uninterp spec fn json_string_at(text: Seq<char>, key: Seq<char>) -> Option<Seq<char>>;

/// The integer value at `key` in the JSON object `text`, if `text` parses
/// as JSON and holds an integer representable as a 64-bit signed value there.
pub uninterp spec fn json_i64_at(text: Seq<char>, key: Seq<char>) -> Option<int>;

/// The serialized text of the value at `key` in the JSON object `text`.
pub uninterp spec fn json_object_at(text: Seq<char>, key: Seq<char>) -> Option<Seq<char>>;

/// The standard base64 encoding of the UTF-8 bytes of `data`.
pub uninterp spec fn base64_of(data: Seq<char>) -> Seq<char>;

/// Relies on serde_json::from_str and serde_json::Value::{get, as_str}:
/// parsing JSON text and reading a string field are functions of the text
/// and the key alone.
#[verifier::external_body]
pub fn json_string_field(text: &str, key: &str) -> (r: Option<String>)
    ensures
        r matches Some(v) ==> json_string_at(text@, key@) == Some(v@),
        r is None ==> json_string_at(text@, key@) is None,
{
    match serde_json::from_str::<serde_json::Value>(text) {
        Ok(v) => v.get(key).and_then(|f| f.as_str()).map(String::from),
        Err(_) => None,
    }
}

/// Relies on serde_json::from_str and serde_json::Value::{get, as_i64}:
/// parsing JSON text and reading an integer field are functions of the
/// text and the key alone.
#[verifier::external_body]
pub fn json_i64_field(text: &str, key: &str) -> (r: Option<i64>)
    ensures
        r matches Some(v) ==> json_i64_at(text@, key@) == Some(v as int),
        r is None ==> json_i64_at(text@, key@) is None,
{
    match serde_json::from_str::<serde_json::Value>(text) {
        Ok(v) => v.get(key).and_then(|f| f.as_i64()),
        Err(_) => None,
    }
}

/// Relies on serde_json::from_str, serde_json::Value::get and the
/// Display impl of serde_json::Value: re-serializing the value found at
/// `key` is a function of the text and the key alone.
#[verifier::external_body]
pub fn json_object_field(text: &str, key: &str) -> (r: Option<String>)
    ensures
        r matches Some(v) ==> json_object_at(text@, key@) == Some(v@),
        r is None ==> json_object_at(text@, key@) is None,
{
    match serde_json::from_str::<serde_json::Value>(text) {
        Ok(v) => v.get(key).map(|f| f.to_string()),
        Err(_) => None,
    }
}

/// Relies on base64::engine::Engine::encode with the standard alphabet
/// and padding: the encoding is a function of the input bytes alone, and
/// an empty input encodes to an empty string.
#[verifier::external_body]
pub fn base64_encode(data: &str) -> (r: String)
    requires
        data@.len() < usize::MAX as int / 16,
    ensures
        r@ == base64_of(data@),
        data@.len() == 0 ==> r@.len() == 0,
{
    base64::prelude::BASE64_STANDARD.encode(data.as_bytes())
}

} // verus!
