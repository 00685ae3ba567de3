use vstd::prelude::*;
use crate::codec::{compact_json, json_document, write_compact_json};
use crate::path_formatting::{
    array_path, build_array_path, document_root, build_index_label, build_object_path, index_label, object_path,
    render_root_path, root_path_of, RootKind,
};
use crate::text::{decimal, push_decimal, push_text};
use crate::value::{JsonValue, Number, ParseResult, ParseResultView, ValueView};
use crate::value_formatting::{
    format_value_literal, format_value_preview, literal_text, preview_text, rendered_text,
};

verus! {

broadcast use vstd::std_specs::vec::axiom_vec_index_decreases;

/// A node of the tree built from a document: its label, its preview, its path,
/// the compact JSON text of its value, the text shown for it, and its children
/// in document order.
#[derive(Debug)]
pub struct TreeNode {
    pub name: String,
    pub preview: String,
    pub path: String,
    pub full_value: String,
    pub display_value: String,
    pub children: Vec<TreeNode>,
}

pub struct TreeNodeView {
    pub name: Seq<char>,
    pub preview: Seq<char>,
    pub path: Seq<char>,
    pub full_value: Seq<char>,
    pub display_value: Seq<char>,
    pub children: Seq<TreeNodeView>,
}

pub open spec fn node_view(n: TreeNode) -> TreeNodeView
    decreases n,
{
    TreeNodeView {
        name: n.name@,
        preview: n.preview@,
        path: n.path@,
        full_value: n.full_value@,
        display_value: n.display_value@,
        children: Seq::new(
            n.children.len() as nat,
            |i: int|
                if 0 <= i < n.children.len() {
                    node_view(n.children[i])
                } else {
                    empty_node()
                },
        ),
    }
}

pub open spec fn empty_node() -> TreeNodeView {
    TreeNodeView {
        name: Seq::empty(),
        preview: Seq::empty(),
        path: Seq::empty(),
        full_value: Seq::empty(),
        display_value: Seq::empty(),
        children: Seq::empty(),
    }
}

impl View for TreeNode {
    type V = TreeNodeView;

    open spec fn view(&self) -> TreeNodeView {
        node_view(*self)
    }
}

/// The node for value `v` labelled `name` at `path`, with one child per object
/// member (labelled by its key, at `path.key`) or array element (labelled
/// `[i]`, at `path[i]`).
pub open spec fn node_of(name: Seq<char>, path: Seq<char>, v: ValueView) -> TreeNodeView
    decreases v,
{
    TreeNodeView {
        name,
        preview: preview_text(v),
        path,
        full_value: compact_json(v),
        display_value: literal_text(v),
        children: match v {
            ValueView::Object(m) => Seq::new(
                m.len(),
                |i: int|
                    if 0 <= i < m.len() {
                        node_of(m[i].0, object_path(path, m[i].0), m[i].1)
                    } else {
                        empty_node()
                    },
            ),
            ValueView::Array(a) => Seq::new(
                a.len(),
                |i: int|
                    if 0 <= i < a.len() {
                        node_of(index_label(i as nat), array_path(path, i as nat), a[i])
                    } else {
                        empty_node()
                    },
            ),
            _ => Seq::empty(),
        },
    }
}

/// The small object `{"lines": n}` that stands for a JSON Lines document.
pub open spec fn lines_summary(n: nat) -> ValueView {
    ValueView::Object(seq![("lines"@, ValueView::Number(decimal(n)))])
}

/// `Line k`, the label of the line at index `k - 1`.
pub open spec fn line_label(i: nat) -> Seq<char> {
    "Line "@ + decimal(i + 1)
}

/// The root of a JSON Lines document: labelled `name (JSONL)`, at path `name`,
/// with line `i` below it as the node of that line's value at `name[i]`.
pub open spec fn lines_tree(values: Seq<ValueView>, name: Seq<char>) -> TreeNodeView {
    TreeNodeView {
        name: name + " (JSONL)"@,
        preview: decimal(values.len()) + " objects"@,
        path: root_path_of(RootKind::Lines, name),
        full_value: compact_json(lines_summary(values.len())),
        display_value: literal_text(lines_summary(values.len())),
        children: Seq::new(
            values.len(),
            |i: int| node_of(line_label(i as nat), array_path(name, i as nat), values[i]),
        ),
    }
}

/// The tree of a parse result shown under `name`.
pub open spec fn tree_of(result: ParseResultView, name: Seq<char>) -> TreeNodeView {
    match result {
        ParseResultView::Single(v) => node_of(name, root_path_of(RootKind::Document, name), v),
        ParseResultView::JsonL(values) => lines_tree(values, name),
    }
}

impl TreeNode {
    /// The node of `value`, labelled `name` at `path`, and all nodes below it.
    pub fn from_value(name: &str, path: &str, value: &JsonValue) -> (r: TreeNode)
        ensures
            r@ == node_of(name@, path@, value@),
        decreases value@,
    {
        let preview = format_value_preview(value);
        let display_value = format_value_literal(value);
        let full_value = write_compact_json(value);
        let mut children: Vec<TreeNode> = Vec::new();
        match value {
            JsonValue::Object(map) => {
                let mut i: usize = 0;
                while i < map.len()
                    invariant
                        i <= map.len(),
                        children.len() == i,
                        *value == JsonValue::Object(*map),
                        forall|j: int|
                            0 <= j < i ==> #[trigger] children@[j]@ == node_of(
                                map@[j].0@,
                                object_path(path@, map@[j].0@),
                                map@[j].1@,
                            ),
                    decreases map.len() - i,
                {
                    proof {
                        let ghost m = value@->Object_0;
                        assert(m[i as int].1 == map@[i as int].1@);
                        assert(decreases_to!(value@ => m[i as int].1));
                    }
                    let key = &map[i].0;
                    let child_path = build_object_path(path, key.as_str());
                    let child = TreeNode::from_value(key.as_str(), child_path.as_str(), &map[i].1);
                    children.push(child);
                    i += 1;
                }
                assert(children_view(&children) =~= node_of(name@, path@, value@).children);
            },
            JsonValue::Array(items) => {
                let mut i: usize = 0;
                while i < items.len()
                    invariant
                        i <= items.len(),
                        children.len() == i,
                        *value == JsonValue::Array(*items),
                        forall|j: int|
                            0 <= j < i ==> #[trigger] children@[j]@ == node_of(
                                index_label(j as nat),
                                array_path(path@, j as nat),
                                items@[j]@,
                            ),
                    decreases items.len() - i,
                {
                    proof {
                        let ghost a = value@->Array_0;
                        assert(a[i as int] == items@[i as int]@);
                    }
                    let child_path = build_array_path(path, i);
                    let child_name = build_index_label(i);
                    let child = TreeNode::from_value(child_name.as_str(), child_path.as_str(), &items[i]);
                    children.push(child);
                    i += 1;
                }
                assert(children_view(&children) =~= node_of(name@, path@, value@).children);
            },
            _ => {
                assert(children_view(&children) =~= node_of(name@, path@, value@).children);
            },
        }
        let r = TreeNode {
            name: String::from_str(name),
            preview,
            path: String::from_str(path),
            full_value,
            display_value,
            children,
        };
        assert(r@.children =~= children_view(&r.children));
        r
    }
}

/// The tree of `result`, shown under `display_name`: one document is rooted at
/// `$`; JSON Lines get a root of their own, see `lines_tree`.
pub fn build_tree_from_parse_result(result: ParseResult, display_name: &str) -> (r: TreeNode)
    ensures
        r@ == tree_of(result@, display_name@),
{
    match result {
        ParseResult::Single(value) => {
            let root = render_root_path(RootKind::Document, display_name);
            TreeNode::from_value(display_name, root.as_str(), &value)
        },
        ParseResult::JsonL(values) => build_tree_from_jsonl(values, display_name),
    }
}

/// The root of a JSON Lines document and the trees of its lines.
fn build_tree_from_jsonl(values: Vec<JsonValue>, display_name: &str) -> (r: TreeNode)
    ensures
        r@ == lines_tree(values@.map_values(|v: JsonValue| v@), display_name@),
{
    let ghost views = values@.map_values(|v: JsonValue| v@);
    let mut name = String::from_str(display_name);
    push_text(&mut name, " (JSONL)");
    let root_path = render_root_path(RootKind::Lines, display_name);
    let count = JsonValue::Number(Number::from_usize(values.len()));
    assert(count@ == ValueView::Number(decimal(values.len() as nat)));
    let mut members: Vec<(String, JsonValue)> = Vec::new();
    members.push((String::from_str("lines"), count));
    let summary = JsonValue::Object(members);
    assert(summary@ == lines_summary(values.len() as nat)) by {
        assert(summary@->Object_0 =~= lines_summary(values.len() as nat)->Object_0);
    }
    let mut preview = String::new();
    push_decimal(&mut preview, values.len());
    push_text(&mut preview, " objects");
    let mut children: Vec<TreeNode> = Vec::new();
    let mut i: usize = 0;
    while i < values.len()
        invariant
            i <= values.len(),
            children.len() == i,
            views == values@.map_values(|v: JsonValue| v@),
            root_path@ == display_name@,
            forall|j: int|
                0 <= j < i ==> #[trigger] children@[j]@ == node_of(
                    line_label(j as nat),
                    array_path(display_name@, j as nat),
                    views[j],
                ),
        decreases values.len() - i,
    {
        let mut label = String::from_str("Line ");
        push_decimal(&mut label, i + 1);
        let path = build_array_path(root_path.as_str(), i);
        children.push(TreeNode::from_value(label.as_str(), path.as_str(), &values[i]));
        i += 1;
    }
    let r = TreeNode {
        name,
        preview,
        path: root_path,
        full_value: write_compact_json(&summary),
        display_value: format_value_literal(&summary),
        children,
    };
    assert(r@.children =~= lines_tree(views, display_name@).children) by {
        assert(r@.children =~= children_view(&r.children));
    }
    r
}

/// Every node below `node`, built for value `v`, has one child per member or
/// element, labelled by its key or by `[i]`, at its parent's path extended by
/// `.key` or by `[i]`; a scalar's node has no children.
pub open spec fn paths_extend(node: TreeNodeView, v: ValueView) -> bool
    decreases v,
{
    match v {
        ValueView::Object(m) => node.children.len() == m.len() && forall|i: int|
            0 <= i < m.len() ==> #[trigger] node.children[i].path == object_path(node.path, m[i].0)
                && node.children[i].name == m[i].0 && paths_extend(node.children[i], m[i].1),
        ValueView::Array(a) => node.children.len() == a.len() && forall|i: int|
            #![trigger node.children[i]]
            0 <= i < a.len() ==> node.children[i].path == array_path(node.path, i as nat)
                && node.children[i].name == index_label(i as nat) && paths_extend(node.children[i], a[i]),
        _ => node.children.len() == 0,
    }
}

/// The node built for `v` at `path` has the paths that `paths_extend` describes.
pub proof fn lemma_node_paths(name: Seq<char>, path: Seq<char>, v: ValueView)
    ensures
        paths_extend(node_of(name, path, v), v),
    decreases v,
{
    let node = node_of(name, path, v);
    match v {
        ValueView::Object(m) => {
            assert forall|i: int| 0 <= i < m.len() implies #[trigger] node.children[i].path
                == object_path(node.path, m[i].0) && node.children[i].name == m[i].0 && paths_extend(
                node.children[i],
                m[i].1,
            ) by {
                lemma_node_paths(m[i].0, object_path(path, m[i].0), m[i].1);
            }
            assert(paths_extend(node, v));
        },
        ValueView::Array(a) => {
            assert forall|i: int| #![trigger node.children[i]] 0 <= i < a.len() implies node.children[i].path
                == array_path(node.path, i as nat) && node.children[i].name == index_label(i as nat)
                && paths_extend(node.children[i], a[i]) by {
                lemma_node_paths(index_label(i as nat), array_path(path, i as nat), a[i]);
                assert(node.children[i] == node_of(index_label(i as nat), array_path(path, i as nat), a[i]));
            }
            assert(node.children.len() == a.len());
            assert(paths_extend(node, v));
        },
        _ => {
            assert(paths_extend(node, v));
        },
    }
}

/// In the tree of one document, the root's path is `$`, and each child is
/// labelled by its key or by `[i]`, at its parent's path followed by `.key` for
/// an object member or `[i]` for an array element, at every depth.
pub proof fn lemma_document_paths(v: ValueView, name: Seq<char>)
    ensures
        tree_of(ParseResultView::Single(v), name).path == document_root(),
        paths_extend(tree_of(ParseResultView::Single(v), name), v),
{
    lemma_node_paths(name, document_root(), v);
}

/// When serde_json reads back, as the same value, the non-empty compact text it
/// wrote for `v`, the text shown for the node of `v` by way of its stored JSON
/// is the node's own display text.
pub proof fn lemma_shown_text_stable(name: Seq<char>, path: Seq<char>, v: ValueView)
    requires
        compact_json(v).len() > 0,
        json_document(compact_json(v)) == Ok::<ValueView, Seq<char>>(v),
    ensures
        rendered_text(node_of(name, path, v).full_value, node_of(name, path, v).preview) == node_of(
            name,
            path,
            v,
        ).display_value,
{
}

pub open spec fn children_view(children: &Vec<TreeNode>) -> Seq<TreeNodeView> {
    Seq::new(children.len() as nat, |i: int| children@[i]@)
}


} // verus!
