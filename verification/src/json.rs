//! JSON documents, parsed and read through `serde_json`.
//!
//! A `serde_json::Value` is opaque to Verus.  [`JsonModel`] says what such a
//! value holds, as far as this library reads it, and the functions below state
//! in its terms what the `serde_json` calls return.  Those statements are
//! taken on trust from the `serde_json` source.

use vstd::prelude::*;

verus! {

/// `serde_json::Value`: a parsed JSON value, carried as it is.
#[verifier::external_type_specification]
#[verifier::external_body]
pub struct ExJsonValue(serde_json::Value);

/// `serde_json::Error`: why a text is no JSON document.  Nothing is read
/// from it.
#[verifier::external_type_specification]
#[verifier::external_body]
pub struct ExJsonError(serde_json::Error);

/// What a JSON value holds, as far as this library reads it.
pub ghost enum JsonModel {
    /// A string.
    Text(Seq<char>),
    /// A number.  The field is its value if that is a non-negative integer
    /// below 2^64, and `None` for a negative or fractional number.
    Number(Option<u64>),
    /// An object: its members by key.
    Object(Map<Seq<char>, JsonModel>),
    /// Null, a boolean or an array.
    Other,
}

impl JsonModel {
    /// The member of an object under `key`; `None` where the value is no
    /// object or has no such member.
    pub open spec fn member(self, key: Seq<char>) -> Option<JsonModel> {
        match self {
            JsonModel::Object(members) => if members.dom().contains(key) {
                Some(members[key])
            } else {
                None
            },
            _ => None,
        }
    }

    /// The text of a string; `None` for any other value.
    pub open spec fn text(self) -> Option<Seq<char>> {
        match self {
            JsonModel::Text(t) => Some(t),
            _ => None,
        }
    }

    /// The value of a number that is a non-negative integer below 2^64;
    /// `None` for any other value.
    pub open spec fn unsigned(self) -> Option<u64> {
        match self {
            JsonModel::Number(n) => n,
            _ => None,
        }
    }
}

/// What a `serde_json::Value` holds.
pub uninterp spec fn json_model(v: serde_json::Value) -> JsonModel;

/// The document that a text is parsed to; `None` where the text is not one
/// JSON document.
pub uninterp spec fn parsed_json(text: Seq<char>) -> Option<JsonModel>;

/// `serde_json::from_str::<Value>`: the parsed document, which depends on the
/// text alone.
#[verifier::external_body]
pub(crate) fn parse_json(text: &str) -> (r: Result<serde_json::Value, serde_json::Error>)
    ensures
        match r {
            Ok(v) => parsed_json(text@) == Some(json_model(v)),
            Err(_) => parsed_json(text@) is None,
        },
{
    serde_json::from_str::<serde_json::Value>(text)
}

/// `serde_json::Value::get` with a string index: the member of an object
/// under `key`, and `None` for a missing key or a value that is no object.
#[verifier::external_body]
pub(crate) fn json_get<'a>(v: &'a serde_json::Value, key: &str) -> (r: Option<&'a serde_json::Value>)
    ensures
        match r {
            Some(member) => json_model(*v).member(key@) == Some(json_model(*member)),
            None => json_model(*v).member(key@) is None,
        },
{
    v.get(key)
}

/// `serde_json::Value::as_str`: the text of a string, and `None` for any
/// other value.
#[verifier::external_body]
pub(crate) fn json_as_str<'a>(v: &'a serde_json::Value) -> (r: Option<&'a str>)
    ensures
        match r {
            Some(t) => json_model(*v).text() == Some(t@),
            None => json_model(*v).text() is None,
        },
{
    v.as_str()
}

/// `serde_json::Value::as_u64`: the value of a number that is a non-negative
/// integer below 2^64, and `None` for any other value.
#[verifier::external_body]
pub(crate) fn json_as_u64(v: &serde_json::Value) -> (r: Option<u64>)
    ensures
        r == json_model(*v).unsigned(),
{
    v.as_u64()
}

} // verus!
