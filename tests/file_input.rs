use slopjson::file_input::{build_display_name, file_format, parse_file_at, parse_file_content, FileFormat};
use slopjson::json_reader::ParseError;
use slopjson::value::{JsonValue, ParseResult};

#[test]
fn extension_decides_the_format_without_regard_to_case() {
    assert_eq!(file_format("/tmp/a.JSON"), FileFormat::Json);
    assert_eq!(file_format("b.jsonl"), FileFormat::Json);
    assert_eq!(file_format("c.Yml"), FileFormat::Yaml);
    assert_eq!(file_format("d.yaml"), FileFormat::Yaml);
    assert_eq!(file_format("e.PARQUET"), FileFormat::Parquet);
    assert_eq!(file_format("f.txt"), FileFormat::Text);
    assert_eq!(file_format("noext"), FileFormat::Text);
}

#[test]
fn display_name_is_the_last_component() {
    assert_eq!(build_display_name("/home/u/data.json"), "data.json");
    assert_eq!(build_display_name("/"), "File");
    assert_eq!(build_display_name("dir/.."), "File");
}

#[test]
fn read_failure_is_an_io_error() {
    let r = parse_file_content("x.json", Err("No such file".to_string()));
    assert_eq!(r, Err(ParseError::IoError("No such file".to_string())));
}

#[test]
fn text_file_must_be_utf8() {
    let r = parse_file_content("x.yaml", Ok(vec![0xff, 0xfe]));
    assert_eq!(r, Err(ParseError::IoError("stream did not contain valid UTF-8".to_string())));
}

#[test]
fn json_file_errors_are_json_errors_and_yaml_is_not_tried() {
    match parse_file_content("x.json", Ok(b"a: 1".to_vec())) {
        Err(ParseError::InvalidJson(_)) => {}
        other => panic!("expected InvalidJson, got {:?}", other),
    }
}

#[test]
fn unknown_extension_falls_back_to_yaml() {
    let r = parse_file_content("notes.txt", Ok(b"k: v".to_vec())).unwrap();
    assert_eq!(
        r,
        ParseResult::Single(JsonValue::Object(vec![("k".to_string(), JsonValue::String("v".to_string()))]))
    );
}

#[test]
fn parse_file_at_names_the_tree_or_reports_the_error() {
    let tree = parse_file_at("/data/rows.jsonl", Ok(b"{\"a\":1}\n{\"a\":2}\n".to_vec())).unwrap();
    assert_eq!(tree.name, "rows.jsonl (JSONL)");
    assert_eq!(tree.path, "rows.jsonl");
    assert_eq!(tree.children[1].path, "rows.jsonl[1]");
    let err = parse_file_at("/data/bad.parquet", Ok(b"nope".to_vec())).unwrap_err();
    assert!(err.starts_with("Invalid Parquet: "));
    let err = parse_file_at("/data/x.json", Err("denied".to_string())).unwrap_err();
    assert_eq!(err, "I/O error: denied");
}

#[test]
fn parse_error_text_names_the_parser_message() {
    let expected = serde_json::from_str::<serde_json::Value>("[1,").unwrap_err().to_string();
    let err = parse_file_at("/d/broken.json", Ok(b"[1,".to_vec())).unwrap_err();
    assert_eq!(err, format!("Invalid JSON: {}", expected));
}
