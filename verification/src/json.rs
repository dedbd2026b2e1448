//! The JSON documents that `pw-dump` prints, held as plain values.
//!
//! Parsing is serde_json's; this module lifts its tree into [`JsonValue`] and
//! offers the few lookups the graph parsers make (`get`, `as_str`, `as_u64`,
//! `elements`), each with its model.

use vstd::prelude::*;

verus! {

/// A JSON value. A number is held as what `serde_json::Number::as_u64` gives of
/// it: its value when it is a non-negative integer that fits a `u64`, else `None`.
/// An object's members are held in the order serde_json's map yields them, one per key.
pub enum JsonValue {
    Null,
    Bool(bool),
    Number(Option<u64>),
    Str(String),
    Array(Vec<JsonValue>),
    Object(Vec<(String, JsonValue)>),
}

/// `serde_json::Error`, opaque: only carried to [`json_error_text`].
#[verifier::external_type_specification]
#[verifier::external_body]
pub struct ExJsonError(serde_json::Error);

/// `serde_json::Value`, opaque: only handed from the parser to [`lift`].
#[verifier::external_type_specification]
#[verifier::external_body]
pub struct ExSerdeValue(serde_json::Value);

/// The document that serde_json parses out of `text`, or `None` where it
/// reports an error.
pub uninterp spec fn json_document(text: Seq<char>) -> Option<JsonValue>;

/// Parses `text` with `serde_json::from_str` into a `serde_json::Value` and lifts
/// it into a [`JsonValue`]. Claimed: the result is `Ok` exactly when the named
/// parse `json_document(text)` is `Some`, and then it is that document.
#[verifier::external_body]
pub(crate) fn parse_json(text: &str) -> (r: Result<JsonValue, serde_json::Error>)
    ensures
        r is Ok <==> json_document(text@) is Some,
        r is Ok ==> json_document(text@) == Some(r->Ok_0),
{
    serde_json::from_str::<serde_json::Value>(text).map(lift)
}

/// The variant-by-variant lifting of a `serde_json::Value` that `parse_json`
/// applies to its result: numbers become `serde_json::Number::as_u64`, maps
/// become their entries in iteration order. No contract: what it yields is part
/// of the document that `parse_json` names.
#[verifier::external_body]
fn lift(v: serde_json::Value) -> JsonValue {
    match v {
        serde_json::Value::Null => JsonValue::Null,
        serde_json::Value::Bool(b) => JsonValue::Bool(b),
        serde_json::Value::Number(n) => JsonValue::Number(n.as_u64()),
        serde_json::Value::String(s) => JsonValue::Str(s),
        serde_json::Value::Array(a) => JsonValue::Array(a.into_iter().map(lift).collect()),
        serde_json::Value::Object(m) => JsonValue::Object(
            m.into_iter().map(|(k, x)| (k, lift(x))).collect(),
        ),
    }
}

/// The message of a serde_json error (`serde_json::Error`'s `Display`, via
/// `to_string`). Nothing is claimed of the text.
#[verifier::external_body]
pub(crate) fn json_error_text(e: &serde_json::Error) -> String {
    e.to_string()
}

/// The value of the first member named `key` among `entries`.
pub open spec fn entry_value(entries: Seq<(String, JsonValue)>, key: Seq<char>) -> Option<
    JsonValue,
>
    decreases entries.len(),
{
    if entries.len() == 0 {
        None
    } else if entries[0].0@ == key {
        Some(entries[0].1)
    } else {
        entry_value(entries.drop_first(), key)
    }
}

/// `v[key]` as `serde_json::Value::get` gives it: only an object has members.
pub open spec fn field(v: JsonValue, key: Seq<char>) -> Option<JsonValue> {
    match v {
        JsonValue::Object(entries) => entry_value(entries@, key),
        _ => None,
    }
}

/// `field` through an optional value.
pub open spec fn field_of(v: Option<JsonValue>, key: Seq<char>) -> Option<JsonValue> {
    match v {
        Some(x) => field(x, key),
        None => None,
    }
}

/// The text of a string value (`as_str`).
pub open spec fn text_of(v: Option<JsonValue>) -> Option<Seq<char>> {
    match v {
        Some(JsonValue::Str(s)) => Some(s@),
        _ => None,
    }
}

/// The unsigned value of a number (`as_u64`).
pub open spec fn unsigned_of(v: Option<JsonValue>) -> Option<u64> {
    match v {
        Some(JsonValue::Number(n)) => n,
        _ => None,
    }
}

/// The elements of an array; nothing for any other value (`as_array().into_iter().flatten()`).
pub open spec fn items(v: JsonValue) -> Seq<JsonValue> {
    match v {
        JsonValue::Array(a) => a@,
        _ => Seq::empty(),
    }
}

impl JsonValue {
    /// The member named `key` of an object.
    pub fn get(&self, key: &String) -> (r: Option<&JsonValue>)
        ensures
            match r {
                Some(x) => field(*self, key@) == Some(*x),
                None => field(*self, key@) is None,
            },
    {
        match self {
            JsonValue::Object(entries) => {
                let mut i: usize = 0;
                assert(entries@.skip(0) =~= entries@);
                while i < entries.len()
                    invariant
                        i <= entries.len(),
                        field(*self, key@) == entry_value(entries@, key@),
                        entry_value(entries@, key@) == entry_value(entries@.skip(i as int), key@),
                    decreases entries.len() - i,
                {
                    assert(entries@.skip(i as int)[0] == entries@[i as int]);
                    if entries[i].0 == *key {
                        return Some(&entries[i].1);
                    }
                    assert(entries@.skip(i as int).drop_first() =~= entries@.skip(i + 1));
                    i = i + 1;
                }
                None
            },
            _ => None,
        }
    }

    /// The text of a string value.
    pub fn as_str(&self) -> (r: Option<&String>)
        ensures
            match r {
                Some(s) => text_of(Some(*self)) == Some(s@),
                None => text_of(Some(*self)) is None,
            },
    {
        match self {
            JsonValue::Str(s) => Some(s),
            _ => None,
        }
    }

    /// The value of a number that is a `u64`.
    pub fn as_u64(&self) -> (r: Option<u64>)
        ensures
            r == unsigned_of(Some(*self)),
    {
        match self {
            JsonValue::Number(n) => *n,
            _ => None,
        }
    }

    /// The elements of an array, or none.
    pub fn elements(&self) -> (r: &[JsonValue])
        ensures
            r@ == items(*self),
    {
        match self {
            JsonValue::Array(a) => a.as_slice(),
            _ => &[],
        }
    }
}

/// `field` through an optional reference, as `and_then(|v| v.get(key))`.
pub fn get_in<'a>(v: Option<&'a JsonValue>, key: &String) -> (r: Option<&'a JsonValue>)
    ensures
        match r {
            Some(x) => field_of(opt_val(v), key@) == Some(*x),
            None => field_of(opt_val(v), key@) is None,
        },
{
    match v {
        Some(x) => x.get(key),
        None => None,
    }
}

/// The text of an optional string value, as `and_then(Value::as_str)`.
pub fn str_in<'a>(v: Option<&'a JsonValue>) -> (r: Option<&'a String>)
    ensures
        match r {
            Some(s) => text_of(opt_val(v)) == Some(s@),
            None => text_of(opt_val(v)) is None,
        },
{
    match v {
        Some(x) => x.as_str(),
        None => None,
    }
}

/// The value behind an optional reference.
pub open spec fn opt_val(v: Option<&JsonValue>) -> Option<JsonValue> {
    match v {
        Some(x) => Some(*x),
        None => None,
    }
}

} // verus!
