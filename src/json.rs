//! Structured documents as serde_json values, carried through unchanged.
use vstd::prelude::*;

verus! {

#[verifier::external_type_specification]
#[verifier::external_body]
pub struct ExJsonValue(serde_json::Value);

/// The indented text that `serde_json::to_string_pretty` gives for `v`.
pub uninterp spec fn pretty_json_of(v: serde_json::Value) -> Seq<char>;

/// Relies on `serde_json::to_string_pretty`: the indented serialisation of
/// `v`, which depends on `v` alone. It succeeds on every `Value`: the
/// `Serialize` impl of `Value` has no failing branch, its map keys are
/// strings, and the text is written into a `Vec`.
#[verifier::external_body]
pub(crate) fn pretty_json(v: &serde_json::Value) -> (r: Result<String, String>)
    ensures
        r is Ok,
        r matches Ok(s) ==> s@ == pretty_json_of(*v),
{
    match serde_json::to_string_pretty(v) {
        Ok(s) => Ok(s),
        Err(e) => Err(e.to_string()),
    }
}

/// The record's pretty-printed text.
pub fn pretty_text(v: &serde_json::Value) -> (r: String)
    ensures
        r@ == pretty_json_of(*v),
{
    match pretty_json(v) {
        Ok(s) => s,
        Err(_) => String::new(),
    }
}

/// What `v.get(key)` followed by `as_str` gives: the text under `key` where
/// `v` is an object whose entry `key` holds a string, and `None` otherwise.
pub uninterp spec fn text_field_of(v: serde_json::Value, key: Seq<char>) -> Option<Seq<char>>;

/// Relies on `serde_json::Value::get` with a `&str` index and on
/// `Value::as_str`: the string under `key`, which depends on `v` and `key`
/// alone.
#[verifier::external_body]
pub(crate) fn text_field(v: &serde_json::Value, key: &str) -> (r: Option<String>)
    ensures
        match r {
            Some(s) => text_field_of(*v, key@) == Some(s@),
            None => text_field_of(*v, key@) is None,
        },
{
    match v.get(key) {
        Some(field) => match field.as_str() {
            Some(s) => Some(s.to_string()),
            None => None,
        },
        None => None,
    }
}

} // verus!
