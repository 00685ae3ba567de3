use std::sync::Arc;

use arrow::array::{ArrayRef, BooleanArray, Float64Array, Int32Array, Int64Array, StringArray};
use arrow::datatypes::{DataType, Field, Schema};
use arrow::record_batch::RecordBatch;
use parquet::arrow::arrow_writer::ArrowWriter;
use parquet::file::properties::WriterProperties;
use slopjson::json_reader::ParseError;
use slopjson::parquet_reader::parse_parquet_content;
use slopjson::value::{JsonValue, Number, ParseResult};

fn write_parquet(fields: Vec<Field>, columns: Vec<ArrayRef>) -> Vec<u8> {
    let batch = RecordBatch::try_new(Arc::new(Schema::new(fields)), columns).unwrap();
    let mut buffer = Vec::new();
    let props = WriterProperties::builder().build();
    let mut writer = ArrowWriter::try_new(&mut buffer, batch.schema().clone(), Some(props)).unwrap();
    writer.write(&batch).unwrap();
    writer.close().unwrap();
    buffer
}

fn rows(result: ParseResult) -> Vec<JsonValue> {
    match result {
        ParseResult::Single(JsonValue::Array(rows)) => rows,
        other => panic!("Expected Single result with array, got {:?}", other),
    }
}

fn number_at(v: &JsonValue, key: &str) -> Option<String> {
    v.get(key).and_then(|x| x.as_number()).map(|n| n.text().to_string())
}

#[test]
fn test_parse_parquet_simple() {
    let buffer = write_parquet(
        vec![Field::new("id", DataType::Int64, false), Field::new("name", DataType::Utf8, false)],
        vec![
            Arc::new(Int64Array::from(vec![1, 2, 3])),
            Arc::new(StringArray::from(vec!["Alice", "Bob", "Charlie"])),
        ],
    );
    let result = parse_parquet_content(&buffer).unwrap();
    let arr = rows(result);
    assert_eq!(arr.len(), 3);
    assert_eq!(number_at(&arr[0], "id"), Some("1".to_string()));
    assert_eq!(arr[0].get("name").and_then(|v| v.as_str()), Some("Alice"));
    assert_eq!(number_at(&arr[1], "id"), Some("2".to_string()));
    assert_eq!(arr[1].get("name").and_then(|v| v.as_str()), Some("Bob"));
    assert_eq!(number_at(&arr[2], "id"), Some("3".to_string()));
    assert_eq!(arr[2].get("name").and_then(|v| v.as_str()), Some("Charlie"));
}

#[test]
fn test_parse_parquet_with_nullable_fields() {
    let buffer = write_parquet(
        vec![Field::new("active", DataType::Boolean, true), Field::new("score", DataType::Float64, true)],
        vec![
            Arc::new(BooleanArray::from(vec![Some(true), None, Some(false)])),
            Arc::new(Float64Array::from(vec![Some(95.5), None, Some(87.0)])),
        ],
    );
    let result = parse_parquet_content(&buffer).unwrap();
    let arr = rows(result);
    assert_eq!(arr.len(), 3);
    assert_eq!(arr[0].get("active").and_then(|v| v.as_bool()), Some(true));
    let score: f64 = number_at(&arr[0], "score").unwrap().parse().unwrap();
    assert_eq!(score, 95.5);
    assert_eq!(arr[1].get("active"), Some(&JsonValue::Null));
    assert_eq!(arr[1].get("score"), Some(&JsonValue::Null));
    assert_eq!(arr[2].get("active").and_then(|v| v.as_bool()), Some(false));
    let score: f64 = number_at(&arr[2], "score").unwrap().parse().unwrap();
    assert_eq!(score, 87.0);
}

#[test]
fn test_parse_invalid_parquet() {
    let invalid_data = b"not a parquet file";
    let result = parse_parquet_content(invalid_data);
    assert!(result.is_err());
    match result {
        Err(ParseError::InvalidParquet(_)) => {}
        _ => panic!("Expected InvalidParquet error"),
    }
}

#[test]
fn nullable_integer_column_round_trip() {
    let buffer = write_parquet(
        vec![Field::new("c", DataType::Int64, true)],
        vec![Arc::new(Int64Array::from(vec![Some(1), None, Some(3)]))],
    );
    let expected = ParseResult::Single(JsonValue::Array(vec![
        JsonValue::Object(vec![("c".to_string(), JsonValue::Number(Number::from_usize(1)))]),
        JsonValue::Object(vec![("c".to_string(), JsonValue::Null)]),
        JsonValue::Object(vec![("c".to_string(), JsonValue::Number(Number::from_usize(3)))]),
    ]));
    assert_eq!(parse_parquet_content(&buffer).unwrap(), expected);
}

#[test]
fn other_column_types_show_their_text_and_fields_keep_schema_order() {
    let buffer = write_parquet(
        vec![Field::new("z", DataType::Int32, true), Field::new("a", DataType::Int64, false)],
        vec![Arc::new(Int32Array::from(vec![Some(-4), None])), Arc::new(Int64Array::from(vec![-9, 0]))],
    );
    let arr = rows(parse_parquet_content(&buffer).unwrap());
    assert_eq!(
        arr[0],
        JsonValue::Object(vec![
            ("z".to_string(), JsonValue::String("-4".to_string())),
            ("a".to_string(), JsonValue::Number(Number::from_i64(-9))),
        ])
    );
    assert_eq!(arr[1].get("z"), Some(&JsonValue::Null));
}

#[test]
fn non_finite_float_becomes_zero() {
    let buffer = write_parquet(
        vec![Field::new("f", DataType::Float64, false)],
        vec![Arc::new(Float64Array::from(vec![f64::NAN]))],
    );
    let arr = rows(parse_parquet_content(&buffer).unwrap());
    assert_eq!(number_at(&arr[0], "f"), Some("0".to_string()));
}

#[test]
fn rows_of_several_written_batches_keep_their_order() {
    let schema = Arc::new(Schema::new(vec![Field::new("n", DataType::Int64, false)]));
    let first = RecordBatch::try_new(schema.clone(), vec![Arc::new(Int64Array::from(vec![1, 2]))]).unwrap();
    let second = RecordBatch::try_new(schema.clone(), vec![Arc::new(Int64Array::from(vec![3]))]).unwrap();
    let mut buffer = Vec::new();
    let mut writer = ArrowWriter::try_new(&mut buffer, schema, None).unwrap();
    writer.write(&first).unwrap();
    writer.flush().unwrap();
    writer.write(&second).unwrap();
    writer.close().unwrap();
    let arr = rows(parse_parquet_content(&buffer).unwrap());
    let ns: Vec<String> = arr.iter().map(|r| number_at(r, "n").unwrap()).collect();
    assert_eq!(ns, vec!["1", "2", "3"]);
}

#[test]
fn date_column_does_not_fail_the_parse() {
    let buffer = write_parquet(
        vec![Field::new("d", DataType::Date32, true)],
        vec![Arc::new(arrow::array::Date32Array::from(vec![Some(0), None]))],
    );
    let arr = rows(parse_parquet_content(&buffer).unwrap());
    assert_eq!(arr.len(), 2);
    assert_eq!(arr[0].get("d").and_then(|v| v.as_str()), Some("1970-01-01"));
    assert_eq!(arr[1].get("d"), Some(&JsonValue::Null));
}
