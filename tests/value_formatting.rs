use slopjson::json_reader::parse_json_content;
use slopjson::value::{JsonValue, Number, ParseResult};
use slopjson::value_formatting::{format_value_from_string, format_value_literal, format_value_preview};

fn number(n: usize) -> JsonValue {
    JsonValue::Number(Number::from_usize(n))
}

fn parsed(text: &str) -> JsonValue {
    match parse_json_content(text).unwrap() {
        ParseResult::Single(v) => v,
        other => panic!("expected one document, got {:?}", other),
    }
}

#[test]
fn test_format_value_preview_null() {
    assert_eq!(format_value_preview(&JsonValue::Null), "null");
}

#[test]
fn test_format_value_preview_bool() {
    assert_eq!(format_value_preview(&JsonValue::Bool(true)), "true");
    assert_eq!(format_value_preview(&JsonValue::Bool(false)), "false");
}

#[test]
fn test_format_value_preview_number() {
    assert_eq!(format_value_preview(&number(42)), "42");
    assert_eq!(format_value_preview(&parsed("3.14")), "3.14");
}

#[test]
fn test_format_value_preview_string_short() {
    assert_eq!(format_value_preview(&JsonValue::String("hello".to_string())), "\"hello\"");
}

#[test]
fn test_format_value_preview_string_long() {
    let long_string = "a".repeat(60);
    let result = format_value_preview(&JsonValue::String(long_string));
    assert!(result.starts_with('"'));
    assert!(result.ends_with("..."));
    assert_eq!(result.len(), 55);
}

#[test]
fn test_format_value_preview_array() {
    assert_eq!(format_value_preview(&JsonValue::Array(vec![number(1), number(2), number(3)])), "Array[3]");
}

#[test]
fn test_format_value_preview_object() {
    let value = JsonValue::Object(vec![("a".to_string(), number(1)), ("b".to_string(), number(2))]);
    assert_eq!(format_value_preview(&value), "Object{2}");
}

#[test]
fn test_format_value_literal_string() {
    assert_eq!(format_value_literal(&JsonValue::String("hello".to_string())), "hello");
}

#[test]
fn test_format_value_literal_object() {
    let value = JsonValue::Object(vec![("a".to_string(), number(1)), ("b".to_string(), number(2))]);
    let result = format_value_literal(&value);
    assert!(result.contains("\"a\": 1"));
    assert!(result.contains("\"b\": 2"));
}

#[test]
fn test_format_value_literal_array() {
    let value = JsonValue::Array(vec![number(1), number(2), number(3)]);
    let result = format_value_literal(&value);
    assert!(result.contains("1"));
    assert!(result.contains("2"));
    assert!(result.contains("3"));
}

#[test]
fn test_format_value_from_string_valid_json() {
    let json_str = r#"{"name": "test", "value": 42}"#;
    let result = format_value_from_string(json_str, "fallback");
    assert!(result.contains("test"));
    assert!(result.contains("42"));
}

#[test]
fn test_format_value_from_string_empty() {
    let result = format_value_from_string("", "fallback");
    assert_eq!(result, "fallback");
}

#[test]
fn test_format_value_from_string_invalid_json() {
    let invalid = "not valid json";
    let result = format_value_from_string(invalid, "fallback");
    assert_eq!(result, invalid);
}

#[test]
fn preview_cut_starts_after_fifty_characters() {
    let fifty = "é".repeat(50);
    let fifty_one = "é".repeat(51);
    let short = format_value_preview(&JsonValue::String(fifty.clone()));
    let long = format_value_preview(&JsonValue::String(fifty_one));
    assert_eq!(short, format!("\"{}\"", fifty));
    assert!(!short.ends_with("..."));
    assert_eq!(long, format!("\"{}\"...", fifty));
    assert!(long.ends_with("..."));
}

#[test]
fn previews_of_negative_and_large_numbers() {
    assert_eq!(format_value_preview(&parsed("-17")), "-17");
    assert_eq!(format_value_preview(&parsed("18446744073709551615")), "18446744073709551615");
    assert_eq!(format_value_preview(&JsonValue::Number(Number::from_i64(i64::MIN))), "-9223372036854775808");
    assert_eq!(format_value_preview(&JsonValue::Array(vec![])), "Array[0]");
}

#[test]
fn literal_of_string_is_raw_and_of_scalars_is_json() {
    assert_eq!(format_value_literal(&JsonValue::String("a \"q\"\n".to_string())), "a \"q\"\n");
    assert_eq!(format_value_literal(&JsonValue::Null), "null");
    assert_eq!(format_value_literal(&JsonValue::Bool(false)), "false");
    assert_eq!(format_value_literal(&parsed("2.50")), "2.5");
}

#[test]
fn stored_string_json_renders_unquoted() {
    assert_eq!(format_value_from_string("\"line\\nnext\"", "x"), "line\nnext");
    assert_eq!(format_value_from_string("[1,2]", "x"), "[\n  1,\n  2\n]");
}
