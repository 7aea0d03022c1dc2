//! Trusted declarations for the outside crates the pipeline calls.
//!
//! Each item here wraps exactly one outside call; its contract is what the
//! wrapped crate's source shows and is believed, not proved.  Everything
//! that follows from these contracts is verified in the rest of the
//! library.

use core::str::FromStr;

use vstd::prelude::*;

use crate::json::{JsonValue, JsonView};

verus! {

#[verifier::external_type_specification]
#[verifier::external_body]
pub struct ExJsonValue(serde_json::Value);

/// The document a text parses to, if the text is valid JSON.  Whether and
/// to what a text parses depends on the text alone.
pub uninterp spec fn json_of(s: Seq<char>) -> Option<JsonView>;

/// Relies on serde_json::from_str: parses a text as a JSON document.
#[verifier::external_body]
pub(crate) fn json_from_text(s: &str) -> (r: Option<JsonValue>)
    ensures
        r.deep_view() == json_of(s@),
{
    match serde_json::from_str::<serde_json::Value>(s) {
        Ok(v) => Some(json_tree(v)),
        Err(_) => None,
    }
}

/// Relies on serde_json::Value: moves the parsed tree into the library's
/// own document value, one variant at a time; a number becomes its decimal
/// text, object entries keep the map's iteration order.
#[verifier::external_body]
fn json_tree(v: serde_json::Value) -> JsonValue {
    match v {
        serde_json::Value::Null => JsonValue::Null,
        serde_json::Value::Bool(b) => JsonValue::Bool(b),
        serde_json::Value::Number(n) => JsonValue::Num(n.to_string()),
        serde_json::Value::String(s) => JsonValue::Str(s),
        serde_json::Value::Array(items) => JsonValue::Arr(
            items.into_iter().map(json_tree).collect(),
        ),
        serde_json::Value::Object(map) => JsonValue::Obj(
            map.into_iter().map(|(k, w)| (k, json_tree(w))).collect(),
        ),
    }
}

/// Whether a token names an HTTP method; a function of the token alone.
pub uninterp spec fn method_ok(s: Seq<char>) -> bool;

/// Relies on http::Method::from_str: whether a method token is recognized.
#[verifier::external_body]
pub(crate) fn method_token_valid(s: &str) -> (r: bool)
    ensures
        r == method_ok(s@),
{
    http::Method::from_str(s).is_ok()
}

/// Whether a string is a valid header name; a function of the string alone.
pub uninterp spec fn header_name_ok(s: Seq<char>) -> bool;

/// Relies on http::header::HeaderName::from_str: whether a header name can
/// go on the wire.
#[verifier::external_body]
pub(crate) fn header_name_valid(s: &str) -> (r: bool)
    ensures
        r == header_name_ok(s@),
{
    http::header::HeaderName::from_str(s).is_ok()
}

/// Whether a string is a valid header value; a function of the string
/// alone.
pub uninterp spec fn header_value_ok(s: Seq<char>) -> bool;

/// Relies on http::header::HeaderValue::from_str: whether a header value
/// can go on the wire.
#[verifier::external_body]
pub(crate) fn header_value_valid(s: &str) -> (r: bool)
    ensures
        r == header_value_ok(s@),
{
    http::header::HeaderValue::from_str(s).is_ok()
}

/// Whether a string parses as an absolute URL; a function of the string
/// alone.
pub uninterp spec fn url_ok(s: Seq<char>) -> bool;

/// Relies on url::Url::parse: whether a URL can be parsed for the outbound
/// call.
#[verifier::external_body]
pub(crate) fn url_valid(s: &str) -> (r: bool)
    ensures
        r == url_ok(s@),
{
    url::Url::parse(s).is_ok()
}

/// The canonical reason phrase of a status code, if the registry has one;
/// a function of the numeric code alone.
pub uninterp spec fn reason_of(code: u16) -> Option<Seq<char>>;

/// Relies on http::StatusCode::canonical_reason (reached through from_u16):
/// the canonical registry of reason phrases; its entry for 200 is "OK".
#[verifier::external_body]
pub(crate) fn canonical_reason(code: u16) -> (r: Option<String>)
    ensures
        (r is Some) == (reason_of(code) is Some),
        r is Some ==> Some(r->0@) == reason_of(code),
        code == 200 ==> r is Some && r->0@ == "OK"@,
{
    match http::StatusCode::from_u16(code) {
        Ok(c) => c.canonical_reason().map(|s| s.to_owned()),
        Err(_) => None,
    }
}

/// Relies on uuid::Uuid::new_v4: a fresh random token for a new execution;
/// nothing is promised of its value.
#[verifier::external_body]
pub(crate) fn fresh_execution_id() -> u128 {
    uuid::Uuid::new_v4().as_u128()
}

} // verus!
