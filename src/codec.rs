use vstd::prelude::*;
use crate::value::{keys_unique, JsonValue, Number, ValueView};

verus! {

/// The value that serde_json reads from `text`, if the text is one JSON
/// document, else the message of its error.
pub uninterp spec fn json_document(text: Seq<char>) -> Result<ValueView, Seq<char>>;

/// The value that serde_yaml reads from `text`, if the text is one YAML document
/// whose content fits the JSON data model, else the message of its error.
pub uninterp spec fn yaml_document(text: Seq<char>) -> Result<ValueView, Seq<char>>;

/// The compact JSON text that serde_json writes for `v`.
pub uninterp spec fn compact_json(v: ValueView) -> Seq<char>;

/// The indented, multi-line JSON text that serde_json writes for `v`.
pub uninterp spec fn pretty_json(v: ValueView) -> Seq<char>;

/// Moves a value read by serde_json into this library's representation,
/// variant for variant; object members keep serde_json's order. Only the
/// bodies of the reading wrappers below call it.
#[verifier::external_body]
fn from_serde(v: serde_json::Value) -> JsonValue {
    match v {
        serde_json::Value::Null => JsonValue::Null,
        serde_json::Value::Bool(b) => JsonValue::Bool(b),
        serde_json::Value::Number(n) => JsonValue::Number(Number::from_text(n.to_string())),
        serde_json::Value::String(s) => JsonValue::String(s),
        serde_json::Value::Array(a) => JsonValue::Array(a.into_iter().map(from_serde).collect()),
        serde_json::Value::Object(m) => JsonValue::Object(m.into_iter().map(|(k, x)| (k, from_serde(x))).collect()),
    }
}

/// Moves a value of this library into serde_json's representation, variant for
/// variant; a number's text is read back by serde_json's `Number::from_str`.
/// Only the bodies of the writing wrappers below call it.
#[verifier::external_body]
fn to_serde(v: &JsonValue) -> serde_json::Value {
    match v {
        JsonValue::Null => serde_json::Value::Null,
        JsonValue::Bool(b) => serde_json::Value::Bool(*b),
        JsonValue::Number(n) => n.text().parse().map(serde_json::Value::Number).unwrap_or(serde_json::Value::Null),
        JsonValue::String(s) => serde_json::Value::String(s.clone()),
        JsonValue::Array(a) => serde_json::Value::Array(a.iter().map(to_serde).collect()),
        JsonValue::Object(m) => serde_json::Value::Object(m.iter().map(|(k, x)| (k.clone(), to_serde(x))).collect()),
    }
}

/// Relies on `serde_json::from_str::<serde_json::Value>`: whether the text is
/// one JSON document, which value it holds and its error's message depend on
/// the text alone; its
/// objects are `serde_json::Map`s, whose keys are unique.
#[verifier::external_body]
pub(crate) fn parse_json_value(text: &str) -> (r: Result<JsonValue, String>)
    ensures
        match r {
            Ok(v) => json_document(text@) == Ok::<ValueView, Seq<char>>(v@) && keys_unique(v@),
            Err(m) => json_document(text@) == Err::<ValueView, Seq<char>>(m@),
        },
{
    match serde_json::from_str::<serde_json::Value>(text) {
        Ok(v) => Ok(from_serde(v)),
        Err(e) => Err(e.to_string()),
    }
}

/// Relies on `serde_yaml::from_str::<serde_json::Value>`: whether the text is
/// one YAML document, which value it holds and its error's message depend on
/// the text alone; its
/// objects are `serde_json::Map`s, whose keys are unique.
#[verifier::external_body]
pub(crate) fn parse_yaml_value(text: &str) -> (r: Result<JsonValue, String>)
    ensures
        match r {
            Ok(v) => yaml_document(text@) == Ok::<ValueView, Seq<char>>(v@) && keys_unique(v@),
            Err(m) => yaml_document(text@) == Err::<ValueView, Seq<char>>(m@),
        },
{
    match serde_yaml::from_str::<serde_json::Value>(text) {
        Ok(v) => Ok(from_serde(v)),
        Err(e) => Err(e.to_string()),
    }
}

/// Relies on `serde_json::to_string`, which cannot fail on a value whose
/// object keys are strings: the text depends on the value alone.
#[verifier::external_body]
pub(crate) fn write_compact_json(v: &JsonValue) -> (r: String)
    ensures
        r@ == compact_json(v@),
{
    serde_json::to_string(&to_serde(v)).unwrap_or_default()
}

/// Relies on `serde_json::to_string_pretty`, which cannot fail on a value whose
/// object keys are strings: the text depends on the value alone.
#[verifier::external_body]
pub(crate) fn write_pretty_json(v: &JsonValue) -> (r: String)
    ensures
        r@ == pretty_json(v@),
{
    serde_json::to_string_pretty(&to_serde(v)).unwrap_or_default()
}

} // verus!
