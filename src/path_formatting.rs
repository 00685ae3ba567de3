use vstd::prelude::*;
use crate::text::{decimal, push_char, push_decimal, push_text};

verus! {

/// The path of a document's root.
pub open spec fn document_root() -> Seq<char> {
    seq!['$']
}

/// `[i]`: the label of array element `i`, also the path segment that reaches it.
pub open spec fn index_label(i: nat) -> Seq<char> {
    seq!['['] + decimal(i) + seq![']']
}

/// The path of member `key` of the object at `parent`.
pub open spec fn object_path(parent: Seq<char>, key: Seq<char>) -> Seq<char> {
    parent + seq!['.'] + key
}

/// The path of element `i` of the array at `parent`.
pub open spec fn array_path(parent: Seq<char>, i: nat) -> Seq<char> {
    parent + index_label(i)
}

/// The two shapes of a tree's root.
#[derive(Debug, Clone, Copy, PartialEq, Eq, Structural)]
pub enum RootKind {
    /// One document: its root has the fixed path `$`.
    Document,
    /// JSON Lines: the root's path is the display name, and line `i` is at
    /// `name[i]`.
    Lines,
}

pub open spec fn root_path_of(kind: RootKind, display_name: Seq<char>) -> Seq<char> {
    match kind {
        RootKind::Document => document_root(),
        RootKind::Lines => display_name,
    }
}

/// The path of a root of the given kind.
pub fn render_root_path(kind: RootKind, display_name: &str) -> (r: String)
    ensures
        r@ == root_path_of(kind, display_name@),
{
    match kind {
        RootKind::Document => {
            let mut r = String::new();
            push_char(&mut r, '$');
            assert(r@ =~= document_root());
            r
        },
        RootKind::Lines => String::from_str(display_name),
    }
}

/// `parent.key`
pub fn build_object_path(parent: &str, key: &str) -> (r: String)
    ensures
        r@ == object_path(parent@, key@),
{
    let mut r = String::from_str(parent);
    push_char(&mut r, '.');
    push_text(&mut r, key);
    r
}

/// `[i]`
pub fn build_index_label(i: usize) -> (r: String)
    ensures
        r@ == index_label(i as nat),
{
    let mut r = String::new();
    push_char(&mut r, '[');
    push_decimal(&mut r, i);
    push_char(&mut r, ']');
    assert(r@ =~= index_label(i as nat));
    r
}

/// `parent[i]`
pub fn build_array_path(parent: &str, i: usize) -> (r: String)
    ensures
        r@ == array_path(parent@, i as nat),
{
    let mut r = String::from_str(parent);
    let label = build_index_label(i);
    push_text(&mut r, label.as_str());
    r
}

} // verus!
