//! JSON as the build tool writes it, read with the `serde_json` crate.
//!
//! A parsed value is carried through as it is. What is asked of it has a
//! name here: the value under a key, the items of an array, the text of a
//! string, and the value of a boolean or of a number.

use vstd::prelude::*;
use vstd::string::*;
use crate::error_extract::text_of;

verus! {

/// A parsed JSON value.
#[verifier::external_type_specification]
#[verifier::external_body]
pub struct ExJsonValue(serde_json::Value);

/// What `serde_json::from_str` makes of `text` at the type
/// `serde_json::Value`; `None` if it does not parse.
pub uninterp spec fn json_parsed(text: Seq<char>) -> Option<serde_json::Value>;

/// The value under `key` if `value` is an object that has the key, as
/// `serde_json::Value::get` yields it.
pub uninterp spec fn json_field(value: serde_json::Value, key: Seq<char>) -> Option<
    serde_json::Value,
>;

/// The items of `value` if it is an array, as `serde_json::Value::as_array`
/// yields them.
pub uninterp spec fn json_items(value: serde_json::Value) -> Option<Seq<serde_json::Value>>;

/// The text of `value` if it is a string, as `serde_json::Value::as_str`
/// yields it.
pub uninterp spec fn json_text(value: serde_json::Value) -> Option<Seq<char>>;

/// The value of `value` if it is a boolean, as
/// `serde_json::Value::as_bool` yields it.
pub uninterp spec fn json_bool(value: serde_json::Value) -> Option<bool>;

/// The value of `value` if it is an integer that a `u64` holds, as
/// `serde_json::Value::as_u64` yields it.
pub uninterp spec fn json_number(value: serde_json::Value) -> Option<u64>;

/// Whether `value` is `null`, as `serde_json::Value::is_null` says.
pub uninterp spec fn json_is_null(value: serde_json::Value) -> bool;

/// Parses a text as JSON.
///
/// Wraps `serde_json::from_str` at the type `serde_json::Value`; a text
/// that does not parse gives `None`. The outcome depends on the text alone.
#[verifier::external_body]
pub(crate) fn parse(text: &str) -> (r: Option<serde_json::Value>)
    ensures
        r == json_parsed(text@),
{
    serde_json::from_str::<serde_json::Value>(text).ok()
}

/// Looks up a key.
///
/// Wraps `serde_json::Value::get` with a string index, which yields the
/// value under the key if `value` is an object that has it.
#[verifier::external_body]
pub(crate) fn field<'a>(value: &'a serde_json::Value, key: &str) -> (r: Option<
    &'a serde_json::Value,
>)
    ensures
        match r {
            Some(v) => json_field(*value, key@) == Some(*v),
            None => json_field(*value, key@) is None,
        },
{
    value.get(key)
}

/// The items of an array.
///
/// Wraps `serde_json::Value::as_array`.
#[verifier::external_body]
pub(crate) fn items<'a>(value: &'a serde_json::Value) -> (r: Option<&'a Vec<serde_json::Value>>)
    ensures
        match r {
            Some(v) => json_items(*value) == Some(v@),
            None => json_items(*value) is None,
        },
{
    value.as_array()
}

/// The text of a string.
///
/// Wraps `serde_json::Value::as_str`.
#[verifier::external_body]
pub(crate) fn text(value: &serde_json::Value) -> (r: Option<String>)
    ensures
        text_of(r) == json_text(*value),
{
    value.as_str().map(|s| s.to_string())
}

/// The value of a boolean.
///
/// Wraps `serde_json::Value::as_bool`.
#[verifier::external_body]
pub(crate) fn boolean(value: &serde_json::Value) -> (r: Option<bool>)
    ensures
        r == json_bool(*value),
{
    value.as_bool()
}

/// The value of a number that is an integer and not negative.
///
/// Wraps `serde_json::Value::as_u64`.
#[verifier::external_body]
pub(crate) fn number(value: &serde_json::Value) -> (r: Option<u64>)
    ensures
        r == json_number(*value),
{
    value.as_u64()
}

/// Whether a value is `null`.
///
/// Wraps `serde_json::Value::is_null`.
#[verifier::external_body]
pub(crate) fn is_null(value: &serde_json::Value) -> (r: bool)
    ensures
        r == json_is_null(*value),
{
    value.is_null()
}

/// The text under `key`, if `value` has the key and a string under it.
pub open spec fn text_field(value: serde_json::Value, key: Seq<char>) -> Option<Seq<char>> {
    match json_field(value, key) {
        Some(v) => json_text(v),
        None => None,
    }
}

/// The items under `key`, if `value` has the key and an array under it.
pub open spec fn items_field(value: serde_json::Value, key: Seq<char>) -> Option<
    Seq<serde_json::Value>,
> {
    match json_field(value, key) {
        Some(v) => json_items(v),
        None => None,
    }
}

/// The text under a key.
pub(crate) fn text_at(value: &serde_json::Value, key: &str) -> (r: Option<String>)
    ensures
        text_of(r) == text_field(*value, key@),
{
    match field(value, key) {
        Some(v) => text(v),
        None => None,
    }
}

/// The items under a key.
pub(crate) fn items_at<'a>(value: &'a serde_json::Value, key: &str) -> (r: Option<
    &'a Vec<serde_json::Value>,
>)
    ensures
        match r {
            Some(v) => items_field(*value, key@) == Some(v@),
            None => items_field(*value, key@) is None,
        },
{
    match field(value, key) {
        Some(v) => items(v),
        None => None,
    }
}

} // verus!
