//! The trusted boundary to serde_json: parsing one input line into a JSON
//! value and projecting the fields the handlers read onto plain values.
//! Every function that tests or combines what came back is verified; only
//! the direct calls into serde_json are taken on trust.

use vstd::prelude::*;
use crate::protocol::{ArgFields, ParamFields, RequestFields};

verus! {

#[verifier::external_type_specification]
#[verifier::external_body]
pub struct ExValue(serde_json::Value);

/// Whether serde_json accepts a string as one JSON document.
pub uninterp spec fn json_document(s: Seq<char>) -> bool;

/// Relies on serde_json::from_str: it returns Ok exactly when it accepts
/// the input as one JSON document, and its verdict is a function of the
/// input string alone.
#[verifier::external_body]
pub fn parse_json(s: &str) -> (r: Option<serde_json::Value>)
    ensures
        r is Some <==> json_document(s@),
{
    serde_json::from_str::<serde_json::Value>(s).ok()
}

/// Relies on serde_json::Value::get: looks a key up when the value is an
/// object, and returns None on any other value.
#[verifier::external_body]
pub(crate) fn value_get<'a>(v: &'a serde_json::Value, key: &str) -> Option<
    &'a serde_json::Value,
> {
    v.get(key)
}

/// Relies on serde_json::Value::as_str: the payload when the value is a
/// JSON string, and None on any other value.
#[verifier::external_body]
pub(crate) fn value_as_str(v: &serde_json::Value) -> Option<String> {
    match v.as_str() {
        Some(s) => Some(s.to_string()),
        None => None,
    }
}

/// Relies on serde_json::Value::as_u64: the payload when the value is an
/// unsigned integer that fits, and None on any other value.
#[verifier::external_body]
pub(crate) fn value_as_u64(v: &serde_json::Value) -> Option<u64> {
    v.as_u64()
}

/// Relies on serde_json::Value::as_i64: the payload when the value is a
/// signed integer that fits, and None on any other value.
#[verifier::external_body]
pub(crate) fn value_as_i64(v: &serde_json::Value) -> Option<i64> {
    v.as_i64()
}

/// The string at `key`, when `v` is an object holding one there.
pub(crate) fn get_string_field(v: &serde_json::Value, key: &str) -> Option<String> {
    match value_get(v, key) {
        Some(x) => value_as_str(x),
        None => None,
    }
}

fn empty_args() -> ArgFields {
    ArgFields { location: None, query: None, weather_data: None, search_results: None }
}

/// Projects a parsed message onto the fields the handlers read: the
/// identifier when it is an unsigned integer, the method name when it is
/// a string (the empty string otherwise), and the string-valued
/// parameters and tool arguments.
pub(crate) fn decode_request(v: &serde_json::Value) -> RequestFields {
    let id = match value_get(v, "id") {
        Some(x) => value_as_u64(x),
        None => None,
    };
    let method = match value_get(v, "method") {
        Some(x) => match value_as_str(x) {
            Some(s) => s,
            None => String::new(),
        },
        None => String::new(),
    };
    let params = match value_get(v, "params") {
        Some(p) => {
            let arguments = match value_get(p, "arguments") {
                Some(a) => ArgFields {
                    location: get_string_field(a, "location"),
                    query: get_string_field(a, "query"),
                    weather_data: get_string_field(a, "weather_data"),
                    search_results: get_string_field(a, "search_results"),
                },
                None => empty_args(),
            };
            ParamFields {
                name: get_string_field(p, "name"),
                uri: get_string_field(p, "uri"),
                arguments,
            }
        },
        None => ParamFields { name: None, uri: None, arguments: empty_args() },
    };
    RequestFields { id, method, params }
}

} // verus!
