use vstd::prelude::*;
use crate::codec::{compact_json, json_document, parse_json_value, pretty_json, write_pretty_json};
use crate::text::{decimal, push_char, push_decimal, push_text};
use crate::value::{JsonValue, ValueView};

verus! {

/// How many characters of a string a preview shows before it is cut.
pub const PREVIEW_CHARS: usize = 50;

/// The short, type-tagged summary of a value: `null`, `true`, a number's text,
/// a string in double quotes (cut after 50 characters and followed by `...`),
/// `Array[n]` or `Object{n}`.
pub open spec fn preview_text(v: ValueView) -> Seq<char> {
    match v {
        ValueView::Null => "null"@,
        ValueView::Bool(b) => if b {
            "true"@
        } else {
            "false"@
        },
        ValueView::Number(t) => t,
        ValueView::Str(s) => if s.len() > PREVIEW_CHARS {
            seq!['"'] + s.take(PREVIEW_CHARS as int) + "\"..."@
        } else {
            seq!['"'] + s + seq!['"']
        },
        ValueView::Array(a) => "Array["@ + decimal(a.len()) + "]"@,
        ValueView::Object(m) => "Object{"@ + decimal(m.len()) + "}"@,
    }
}

/// The full text of a value for a reader: a string as it is, anything else as
/// indented JSON.
pub open spec fn literal_text(v: ValueView) -> Seq<char> {
    match v {
        ValueView::Str(s) => s,
        _ => pretty_json(v),
    }
}

/// The text shown for a node from its stored JSON text: the fallback when the
/// stored text is empty, the literal text of the value it holds when it is JSON,
/// and the stored text itself otherwise.
pub open spec fn rendered_text(full_value: Seq<char>, fallback: Seq<char>) -> Seq<char> {
    if full_value.len() == 0 {
        fallback
    } else {
        match json_document(full_value) {
            Ok(v) => literal_text(v),
            Err(_) => full_value,
        }
    }
}

/// A string of more than 50 characters is previewed as its first 50 in quotes
/// followed by `...`; one of at most 50 is previewed whole, in quotes, so its
/// preview ends in the closing quote and not in `...`.
pub proof fn lemma_preview_cut(s: Seq<char>)
    ensures
        s.len() > PREVIEW_CHARS ==> preview_text(ValueView::Str(s)) == seq!['"'] + s.take(50) + "\"..."@,
        s.len() > PREVIEW_CHARS ==> preview_text(ValueView::Str(s)).len() == 55,
        s.len() > PREVIEW_CHARS ==> preview_text(ValueView::Str(s)).subrange(52, 55) == "..."@,
        s.len() <= PREVIEW_CHARS ==> preview_text(ValueView::Str(s)).last() == '"',
        s.len() <= PREVIEW_CHARS ==> preview_text(ValueView::Str(s)).len() == s.len() + 2,
{
    reveal_strlit("\"...");
    reveal_strlit("...");
    if s.len() > PREVIEW_CHARS {
        let p = preview_text(ValueView::Str(s));
        assert(p.subrange(52, 55) =~= "..."@);
    }
}

/// When serde_json reads back, as the same value, the non-empty compact and
/// indented texts it writes for a value that is not a string, the shown text
/// of the compact text is the literal text, and showing that text once more
/// leaves it unchanged.
pub proof fn lemma_literal_stable(v: ValueView, fallback: Seq<char>, fallback2: Seq<char>)
    requires
        !(v is Str),
        compact_json(v).len() > 0,
        json_document(compact_json(v)) == Ok::<ValueView, Seq<char>>(v),
        pretty_json(v).len() > 0,
        json_document(pretty_json(v)) == Ok::<ValueView, Seq<char>>(v),
    ensures
        rendered_text(compact_json(v), fallback) == literal_text(v),
        rendered_text(rendered_text(compact_json(v), fallback), fallback2) == rendered_text(
            compact_json(v),
            fallback,
        ),
{
}

/// The preview of `value`.
pub fn format_value_preview(value: &JsonValue) -> (r: String)
    ensures
        r@ == preview_text(value@),
{
    match value {
        JsonValue::Null => String::from_str("null"),
        JsonValue::Bool(b) => if *b {
            String::from_str("true")
        } else {
            String::from_str("false")
        },
        JsonValue::Number(n) => String::from_str(n.text()),
        JsonValue::String(s) => {
            let mut r = String::new();
            push_char(&mut r, '"');
            if s.as_str().unicode_len() > PREVIEW_CHARS {
                push_text(&mut r, s.as_str().substring_char(0, PREVIEW_CHARS));
                push_text(&mut r, "\"...");
            } else {
                push_text(&mut r, s.as_str());
                push_char(&mut r, '"');
            }
            assert(r@ =~= preview_text(value@));
            r
        },
        JsonValue::Array(a) => {
            let mut r = String::from_str("Array[");
            push_decimal(&mut r, a.len());
            push_text(&mut r, "]");
            r
        },
        JsonValue::Object(m) => {
            let mut r = String::from_str("Object{");
            push_decimal(&mut r, m.len());
            push_text(&mut r, "}");
            r
        },
    }
}

/// The literal text of `value`.
pub fn format_value_literal(value: &JsonValue) -> (r: String)
    ensures
        r@ == literal_text(value@),
{
    match value {
        JsonValue::String(s) => s.clone(),
        _ => write_pretty_json(value),
    }
}

/// The text shown for a node whose stored JSON text is `full_value`.
pub fn format_value_from_string(full_value: &str, preview_fallback: &str) -> (r: String)
    ensures
        r@ == rendered_text(full_value@, preview_fallback@),
{
    if full_value.is_empty() {
        String::from_str(preview_fallback)
    } else {
        match parse_json_value(full_value) {
            Ok(v) => format_value_literal(&v),
            Err(_) => String::from_str(full_value),
        }
    }
}

} // verus!
