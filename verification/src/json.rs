//! JSON documents as `serde_json` holds them, with what this library relies
//! on when it reads one.
//!
//! Nothing here is proved: the contracts restate the documentation of
//! `serde_json`, and the rest of the library is verified against them.

use vstd::prelude::*;

verus! {

/// `serde_json::Value`, a parsed JSON document. Its inside is not visible to
/// the verifier; [`json_of`] stands for what it holds.
#[verifier::external_type_specification]
#[verifier::external_body]
pub struct ExValue(serde_json::Value);

/// `serde_json::Error`, why a text was not accepted as JSON.
#[verifier::external_type_specification]
#[verifier::external_body]
pub struct ExJsonError(serde_json::Error);

/// A JSON document as a tree of plain values.
pub enum Json {
    Null,
    Bool(bool),
    /// A number: its value where it is written as an integer that `serde_json`
    /// keeps as one, and `None` where it is kept as a float.
    Number(Option<int>),
    Text(Seq<char>),
    Array(Seq<Json>),
    Object(Map<Seq<char>, Json>),
}

/// What a `serde_json::Value` holds.
pub uninterp spec fn json_of(value: serde_json::Value) -> Json;

/// What `serde_json::from_slice` makes of `bytes` when asked for a `Value`:
/// the document, or `None` where the bytes are not one JSON text.
pub uninterp spec fn parsed_json(bytes: Seq<u8>) -> Option<Json>;

/// The member `key` of an object, and `None` for a missing key and for
/// anything that is not an object.
pub open spec fn member_of(doc: Json, key: Seq<char>) -> Option<Json> {
    match doc {
        Json::Object(fields) => if fields.contains_key(key) {
            Some(fields[key])
        } else {
            None
        },
        _ => None,
    }
}

/// The items of an array, and `None` for anything else.
pub open spec fn items_of(doc: Json) -> Option<Seq<Json>> {
    match doc {
        Json::Array(items) => Some(items),
        _ => None,
    }
}

/// The text of a string, and `None` for anything else.
pub open spec fn text_of(doc: Json) -> Option<Seq<char>> {
    match doc {
        Json::Text(text) => Some(text),
        _ => None,
    }
}

/// The value of an integer that fits in `i64`, and `None` for anything else.
pub open spec fn integer_of(doc: Json) -> Option<i64> {
    match doc {
        Json::Number(Some(n)) => if i64::MIN <= n <= i64::MAX {
            Some(n as i64)
        } else {
            None
        },
        _ => None,
    }
}

/// `serde_json::from_slice::<Value>`: parses `bytes` as one JSON text. The
/// result depends on the bytes alone; [`parsed_json`] names it.
#[verifier::external_body]
pub(crate) fn parse(bytes: &[u8]) -> (r: Result<serde_json::Value, serde_json::Error>)
    ensures
        match r {
            Ok(value) => parsed_json(bytes@) == Some(json_of(value)),
            Err(_) => parsed_json(bytes@) is None,
        },
{
    serde_json::from_slice::<serde_json::Value>(bytes)
}

/// `serde_json::Value::get` with a string index: the member of that name if
/// the value is an object that has one, and `None` otherwise.
#[verifier::external_body]
pub(crate) fn member<'a>(value: &'a serde_json::Value, key: &str) -> (r: Option<
    &'a serde_json::Value,
>)
    ensures
        match r {
            Some(found) => member_of(json_of(*value), key@) == Some(json_of(*found)),
            None => member_of(json_of(*value), key@) is None,
        },
{
    value.get(key)
}

/// `serde_json::Value::as_array`: the vector inside an array, item by item,
/// and `None` for any other value.
pub assume_specification[ serde_json::Value::as_array ](value: &serde_json::Value) -> (r: Option<
    &Vec<serde_json::Value>,
>)
    ensures
        match r {
            Some(items) => items_of(json_of(*value)) == Some(
                Seq::new(items@.len(), |i: int| json_of(items@[i])),
            ),
            None => items_of(json_of(*value)) is None,
        },
;

/// `serde_json::Value::as_str`: the text inside a string, and `None` for any
/// other value.
pub assume_specification[ serde_json::Value::as_str ](value: &serde_json::Value) -> (r: Option<
    &str,
>)
    ensures
        match r {
            Some(text) => text_of(json_of(*value)) == Some(text@),
            None => text_of(json_of(*value)) is None,
        },
;

/// `serde_json::Value::as_i64`: the value of an integer that fits in `i64`,
/// and `None` for a float, an integer beyond `i64` and any value that is not
/// a number.
pub assume_specification[ serde_json::Value::as_i64 ](value: &serde_json::Value) -> (r: Option<
    i64,
>)
    ensures
        r == integer_of(json_of(*value)),
;

} // verus!
