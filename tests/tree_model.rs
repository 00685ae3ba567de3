use slopjson::json_reader::parse_json_content;
use slopjson::tree_model::{build_tree_from_parse_result, TreeNode};
use slopjson::value::{JsonValue, Number, ParseResult};
use slopjson::value_formatting::format_value_from_string;

fn number(n: usize) -> JsonValue {
    JsonValue::Number(Number::from_usize(n))
}

#[test]
fn build_tree_for_simple_object() {
    let value = JsonValue::Object(vec![
        ("name".to_string(), JsonValue::String("value".to_string())),
        ("items".to_string(), JsonValue::Array(vec![number(1), number(2)])),
    ]);
    let root = build_tree_from_parse_result(ParseResult::Single(value), "test.json");
    assert_eq!(root.name, "test.json");
    assert_eq!(root.path, "$");
    assert_eq!(root.children.len(), 2);

    let name = root.children.iter().find(|child| child.name == "name");
    assert!(name.is_some());

    let items = root.children.iter().find(|child| child.name == "items");
    assert!(items.is_some());
    let items_children = &items.unwrap().children;
    assert_eq!(items_children.len(), 2);
    assert_eq!(items_children[0].name, "[0]");
    assert_eq!(items_children[0].path, "$.items[0]");
}

#[test]
fn build_tree_for_jsonl() {
    let values = vec![
        JsonValue::Object(vec![("a".to_string(), number(1))]),
        JsonValue::Object(vec![("b".to_string(), number(2))]),
    ];
    let root = build_tree_from_parse_result(ParseResult::JsonL(values), "data.jsonl");
    assert_eq!(root.name, "data.jsonl (JSONL)");
    assert_eq!(root.children.len(), 2);
    assert_eq!(root.children[0].name, "Line 1");
    assert!(root.preview.contains("2"));
}

#[test]
fn jsonl_root_and_line_addresses() {
    let values = vec![number(7), JsonValue::Object(vec![("k".to_string(), JsonValue::Null)])];
    let root = build_tree_from_parse_result(ParseResult::JsonL(values), "rows");
    assert_eq!(root.path, "rows");
    assert_eq!(root.preview, "2 objects");
    assert_eq!(root.full_value, "{\"lines\":2}");
    assert_eq!(root.display_value, "{\n  \"lines\": 2\n}");
    assert_eq!(root.children[0].path, "rows[0]");
    assert_eq!(root.children[1].name, "Line 2");
    assert_eq!(root.children[1].path, "rows[1]");
    assert_eq!(root.children[1].children[0].path, "rows[1].k");
}

#[test]
fn nodes_carry_preview_and_both_texts() {
    let parsed = parse_json_content(r#"{"s": "hi", "n": [true, null]}"#).unwrap();
    let root = build_tree_from_parse_result(parsed, "doc");
    assert_eq!(root.preview, "Object{2}");
    assert_eq!(root.full_value, r#"{"s":"hi","n":[true,null]}"#);
    let s = &root.children[0];
    assert_eq!((s.name.as_str(), s.path.as_str()), ("s", "$.s"));
    assert_eq!(s.preview, "\"hi\"");
    assert_eq!(s.full_value, "\"hi\"");
    assert_eq!(s.display_value, "hi");
    assert!(s.children.is_empty());
    let n = &root.children[1];
    assert_eq!(n.preview, "Array[2]");
    assert_eq!(n.display_value, "[\n  true,\n  null\n]");
    assert_eq!(n.children[1].path, "$.n[1]");
    assert_eq!(n.children[1].preview, "null");
}

fn check_paths(node: &TreeNode) {
    for (i, child) in node.children.iter().enumerate() {
        let by_key = format!("{}.{}", node.path, child.name);
        let by_index = format!("{}[{}]", node.path, i);
        assert!(child.path == by_key || (child.path == by_index && child.name == format!("[{}]", i)));
        check_paths(child);
    }
}

#[test]
fn child_paths_extend_parent_paths() {
    let parsed = parse_json_content(r#"{"a": {"b": [1, {"c": 2}]}, "d": []}"#).unwrap();
    let root = build_tree_from_parse_result(parsed, "nested.json");
    assert_eq!(root.path, "$");
    check_paths(&root);
    assert_eq!(root.children[0].children[0].children[1].children[0].path, "$.a.b[1].c");
}

fn check_shown_text(node: &TreeNode) {
    assert_eq!(format_value_from_string(&node.full_value, &node.preview), node.display_value);
    for child in &node.children {
        check_shown_text(child);
    }
}

#[test]
fn stored_json_renders_as_the_display_text() {
    let parsed =
        parse_json_content(r#"{"t": "tab\tquote\"", "f": 3.5, "neg": -12, "e": {}, "l": [[], [1]]}"#).unwrap();
    let root = build_tree_from_parse_result(parsed, "r");
    check_shown_text(&root);
}
