//! JSON documents as `serde_json` holds them, with a mathematical model of
//! what a document contains.

use vstd::prelude::*;
use serde_json::Value;

verus! {

/// Trusted: `serde_json::Value`, a JSON document. Nothing inside it is
/// visible here; [`json_of`] names what it contains.
#[verifier::external_type_specification]
#[verifier::external_body]
pub struct ExValue(serde_json::Value);

/// The content of a JSON document. Numbers are not told apart.
pub ghost enum Json {
    Null,
    Bool(bool),
    Number,
    Text(Seq<char>),
    Array(Seq<Json>),
    Object(Map<Seq<char>, Json>),
}

impl Json {
    /// The member under `key` of an object; `Null` where there is none or
    /// where this is no object.
    pub open spec fn member(self, key: Seq<char>) -> Json {
        match self {
            Json::Object(m) => if m.contains_key(key) { m[key] } else { Json::Null },
            _ => Json::Null,
        }
    }

    /// The element at `index` of an array; `Null` where there is none or
    /// where this is no array.
    pub open spec fn element(self, index: int) -> Json {
        match self {
            Json::Array(a) => if 0 <= index < a.len() { a[index] } else { Json::Null },
            _ => Json::Null,
        }
    }

    /// The characters of a string; `None` for anything else.
    pub open spec fn text(self) -> Option<Seq<char>> {
        match self {
            Json::Text(s) => Some(s),
            _ => None,
        }
    }

    /// This object with `key` set to `value`.
    pub open spec fn with(self, key: Seq<char>, value: Json) -> Json {
        match self {
            Json::Object(m) => Json::Object(m.insert(key, value)),
            other => other,
        }
    }
}

/// What a `serde_json::Value` contains.
pub uninterp spec fn json_of(v: Value) -> Json;

/// What `serde_json::from_str` makes of a text: the document, or, where the
/// text is not exactly one JSON value, the message of its error.
pub uninterp spec fn json_parse(text: Seq<char>) -> Result<Json, Seq<char>>;

/// Trusted: `serde_json::from_str` at type `Value`, its error turned into
/// its message. Document and message are named by [`json_parse`]; an empty
/// text is never a document.
#[verifier::external_body]
pub(crate) fn parse_document(text: &str) -> (r: Result<Value, String>)
    ensures
        match r {
            Ok(v) => json_parse(text@) == Ok::<Json, Seq<char>>(json_of(v)),
            Err(m) => json_parse(text@) == Err::<Json, Seq<char>>(m@),
        },
        text@.len() == 0 ==> r is Err,
{
    match serde_json::from_str::<Value>(text) {
        Ok(v) => Ok(v),
        Err(e) => Err(e.to_string()),
    }
}

/// Trusted: indexing a `Value` by a key, which yields the member of an
/// object and `Null` in every other case.
#[verifier::external_body]
pub(crate) fn member<'a>(v: &'a Value, key: &str) -> (r: &'a Value)
    ensures
        json_of(*r) == json_of(*v).member(key@),
{
    &v[key]
}

/// Trusted: indexing a `Value` by a position, which yields the element of an
/// array and `Null` in every other case.
#[verifier::external_body]
pub(crate) fn element<'a>(v: &'a Value, index: usize) -> (r: &'a Value)
    ensures
        json_of(*r) == json_of(*v).element(index as int),
{
    &v[index]
}

/// Trusted: `Value::as_str`, which yields the characters of a string value
/// and `None` for every other value.
#[verifier::external_body]
pub(crate) fn as_text<'a>(v: &'a Value) -> (r: Option<&'a str>)
    ensures
        match r {
            Some(s) => json_of(*v).text() == Some(s@),
            None => json_of(*v).text() is None,
        },
{
    v.as_str()
}

/// Trusted: `Value::String`, a string value with the given characters.
#[verifier::external_body]
pub(crate) fn text_value(s: &str) -> (r: Value)
    ensures
        json_of(r) == Json::Text(s@),
{
    Value::String(s.to_string())
}

/// Trusted: `Value::Bool`.
#[verifier::external_body]
pub(crate) fn bool_value(b: bool) -> (r: Value)
    ensures
        json_of(r) == Json::Bool(b),
{
    Value::Bool(b)
}

/// Trusted: `Value::Array`, an array of the given values in their order.
#[verifier::external_body]
pub(crate) fn array_value(items: Vec<Value>) -> (r: Value)
    ensures
        json_of(r) == Json::Array(items@.map_values(|v: Value| json_of(v))),
{
    Value::Array(items)
}

/// Trusted: `Value::Object` over `serde_json::Map::new`, an object without
/// members.
#[verifier::external_body]
pub(crate) fn empty_object() -> (r: Value)
    ensures
        json_of(r) == Json::Object(Map::empty()),
{
    Value::Object(serde_json::Map::new())
}

/// Trusted: assignment through `Value`'s mutable index by key, which on an
/// object sets that member and leaves the others.
#[verifier::external_body]
pub(crate) fn set_member(object: &mut Value, key: &str, value: Value)
    requires
        json_of(*old(object)) is Object,
    ensures
        json_of(*final(object)) == json_of(*old(object)).with(key@, json_of(value)),
{
    object[key] = value;
}

} // verus!
