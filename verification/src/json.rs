//! A minimal model of the upstream JSON response, and the fixed-path
//! extraction of the generated text.
//!
//! The upstream body is arbitrary JSON; the relay reads exactly one path of
//! it, `candidates[0].content.parts[0].text`. Parsing is done by
//! `serde_json` behind a trusted wrapper; the parsed document is handed to
//! verified code as a [`JsonValue`], on which the extraction is proved.

use vstd::prelude::*;

use crate::text::str_eq;

verus! {

/// A parsed JSON document, holding exactly what the relay can read of one.
/// A number keeps only the fact that it is a number: the relay never reads a
/// numeric value, and modelling it would drag floating point in.
#[derive(Debug, PartialEq, Eq)]
pub enum JsonValue {
    Null,
    Bool(bool),
    Number,
    Text(String),
    Array(Vec<JsonValue>),
    Object(Vec<(String, JsonValue)>),
}

/// The value under the first field with the given name, if any.
pub open spec fn object_lookup(fields: Seq<(String, JsonValue)>, key: Seq<char>) -> Option<
    JsonValue,
>
    decreases fields.len(),
{
    if fields.len() == 0 {
        None
    } else if fields[0].0@ == key {
        Some(fields[0].1)
    } else {
        object_lookup(fields.subrange(1, fields.len() as int), key)
    }
}

/// The named member of a value, when the value is an object that has it.
pub open spec fn member(v: JsonValue, key: Seq<char>) -> Option<JsonValue> {
    match v {
        JsonValue::Object(fields) => object_lookup(fields@, key),
        _ => None,
    }
}

/// The first element of a value, when the value is a non-empty array.
pub open spec fn first_element(v: JsonValue) -> Option<JsonValue> {
    match v {
        JsonValue::Array(items) => if items@.len() > 0 {
            Some(items@[0])
        } else {
            None
        },
        _ => None,
    }
}

/// The text of a value, when the value is a JSON string.
pub open spec fn text_value(v: JsonValue) -> Option<Seq<char>> {
    match v {
        JsonValue::Text(s) => Some(s@),
        _ => None,
    }
}

/// The text at `candidates[0].content.parts[0].text`, when every segment of
/// that path is present and of the expected type.
pub open spec fn text_at_path(v: JsonValue) -> Option<Seq<char>> {
    match member(v, "candidates"@) {
        None => None,
        Some(candidates) => match first_element(candidates) {
            None => None,
            Some(candidate) => match member(candidate, "content"@) {
                None => None,
                Some(content) => match member(content, "parts"@) {
                    None => None,
                    Some(parts) => match first_element(parts) {
                        None => None,
                        Some(part) => match member(part, "text"@) {
                            None => None,
                            Some(t) => text_value(t),
                        },
                    },
                },
            },
        },
    }
}

/// Looks a member up in a value, as [`member`] describes.
pub fn get_member<'a>(v: &'a JsonValue, key: &str) -> (r: Option<&'a JsonValue>)
    ensures
        match r {
            Some(m) => member(*v, key@) == Some(*m),
            None => member(*v, key@) is None,
        },
{
    match v {
        JsonValue::Object(fields) => {
            let n = fields.len();
            proof {
                assert(fields@.subrange(0, n as int) =~= fields@);
            }
            let mut i: usize = 0;
            while i < n
                invariant
                    n == fields@.len(),
                    i <= n,
                    member(*v, key@) == object_lookup(
                        fields@.subrange(i as int, n as int),
                        key@,
                    ),
                decreases n - i,
            {
                if str_eq(fields[i].0.as_str(), key) {
                    proof {
                        let sub = fields@.subrange(i as int, n as int);
                        assert(sub[0] == fields@[i as int]);
                        assert(sub.len() > 0);
                        assert(object_lookup(sub, key@) == Some(sub[0].1));
                    }
                    return Some(&fields[i].1);
                }
                proof {
                    assert(fields@.subrange(i as int, n as int)[0] == fields@[i as int]);
                    assert(fields@.subrange(i as int, n as int).subrange(1, (n - i) as int)
                        =~= fields@.subrange(i as int + 1, n as int));
                }
                i = i + 1;
            }
            proof {
                assert(fields@.subrange(n as int, n as int).len() == 0);
            }
            None
        },
        _ => None,
    }
}

/// Takes the first element of a value, as [`first_element`] describes.
pub fn get_first<'a>(v: &'a JsonValue) -> (r: Option<&'a JsonValue>)
    ensures
        match r {
            Some(m) => first_element(*v) == Some(*m),
            None => first_element(*v) is None,
        },
{
    match v {
        JsonValue::Array(items) => {
            if items.len() > 0 {
                Some(&items[0])
            } else {
                None
            }
        },
        _ => None,
    }
}

/// Extracts the text at `candidates[0].content.parts[0].text`, as
/// [`text_at_path`] describes.
pub fn extract_text(v: &JsonValue) -> (r: Option<String>)
    ensures
        match r {
            Some(s) => text_at_path(*v) == Some(s@),
            None => text_at_path(*v) is None,
        },
{
    let candidates = match get_member(v, "candidates") {
        Some(x) => x,
        None => {
            return None;
        },
    };
    let candidate = match get_first(candidates) {
        Some(x) => x,
        None => {
            return None;
        },
    };
    let content = match get_member(candidate, "content") {
        Some(x) => x,
        None => {
            return None;
        },
    };
    let parts = match get_member(content, "parts") {
        Some(x) => x,
        None => {
            return None;
        },
    };
    let part = match get_first(parts) {
        Some(x) => x,
        None => {
            return None;
        },
    };
    let t = match get_member(part, "text") {
        Some(x) => x,
        None => {
            return None;
        },
    };
    match t {
        JsonValue::Text(s) => Some(s.clone()),
        _ => None,
    }
}

/// `serde_json::Value`, the parser's dynamic document type, declared so the
/// trusted parsing items below can hold and translate values of it.
#[verifier::external_type_specification]
#[verifier::external_body]
pub struct ExSerdeValue(serde_json::Value);

/// `serde_json::Error`, the parser's error type, carried out of the trusted
/// wrapper and mapped to the relay's own error in verified code.
#[verifier::external_type_specification]
#[verifier::external_body]
pub struct ExSerdeError(serde_json::Error);

/// The document that `serde_json::from_str::<serde_json::Value>` yields for
/// a given text, translated into a [`JsonValue`]; `None` when the parser
/// rejects the text. Parsing is a function of the text alone.
pub uninterp spec fn json_of(s: Seq<char>) -> Option<JsonValue>;

/// Translates a `serde_json::Value` into the library's [`JsonValue`], one
/// variant to one variant, moving fields; a number keeps only its being a
/// number.
#[verifier::external_body]
fn value_to_tree(v: serde_json::Value) -> JsonValue {
    match v {
        serde_json::Value::Null => JsonValue::Null,
        serde_json::Value::Bool(b) => JsonValue::Bool(b),
        serde_json::Value::Number(_) => JsonValue::Number,
        serde_json::Value::String(s) => JsonValue::Text(s),
        serde_json::Value::Array(items) => JsonValue::Array(
            items.into_iter().map(value_to_tree).collect(),
        ),
        serde_json::Value::Object(fields) => JsonValue::Object(
            fields.into_iter().map(|(k, w)| (k, value_to_tree(w))).collect(),
        ),
    }
}

/// Relies on `serde_json::from_str::<serde_json::Value>`: it parses the
/// whole text as one JSON document, deterministically, and returns `Err`
/// exactly when it rejects the text. The parsed document comes back
/// translated by [`value_to_tree`]; [`json_of`] names that outcome.
#[verifier::external_body]
pub(crate) fn parse_json(body: &str) -> (r: Result<JsonValue, serde_json::Error>)
    ensures
        match r {
            Ok(v) => json_of(body@) == Some(v),
            Err(_) => json_of(body@) is None,
        },
{
    match serde_json::from_str::<serde_json::Value>(body) {
        Ok(v) => Ok(value_to_tree(v)),
        Err(e) => Err(e),
    }
}

} // verus!
