use vstd::prelude::*;
use crate::text::{decimal, push_char, push_decimal, push_decimal_u64};

verus! {

broadcast use vstd::std_specs::vec::axiom_vec_index_decreases;

/// A number, held as the canonical decimal text that serde_json prints for it
/// (`42`, `-7`, `3.14`, `87.0`): integers and floats keep their kind.
#[derive(Debug, PartialEq)]
pub struct Number {
    text: String,
}

/// The decimal text of an integer, with `-` before a negative one.
pub open spec fn int_text(n: int) -> Seq<char> {
    if n < 0 {
        seq!['-'] + decimal((-n) as nat)
    } else {
        decimal(n as nat)
    }
}

impl View for Number {
    type V = Seq<char>;

    closed spec fn view(&self) -> Seq<char> {
        self.text@
    }
}

impl Number {
    /// The number read from canonical text.
    pub(crate) fn from_text(text: String) -> (r: Number)
        ensures
            r@ == text@,
    {
        Number { text }
    }

    /// The integer `n`.
    pub fn from_usize(n: usize) -> (r: Number)
        ensures
            r@ == decimal(n as nat),
    {
        let mut text = String::new();
        push_decimal(&mut text, n);
        Number { text }
    }

    /// The integer `n`.
    pub fn from_i64(n: i64) -> (r: Number)
        ensures
            r@ == int_text(n as int),
    {
        let mut text = String::new();
        if n < 0 {
            push_char(&mut text, '-');
            let magnitude: u64 = if n == i64::MIN {
                9223372036854775808u64
            } else {
                (-n) as u64
            };
            push_decimal_u64(&mut text, magnitude);
        } else {
            push_decimal_u64(&mut text, n as u64);
        }
        Number { text }
    }

    /// The canonical decimal text.
    pub fn text(&self) -> (r: &str)
        ensures
            r@ == self@,
    {
        self.text.as_str()
    }
}

/// A parsed value: the data model shared by every input format.
/// Object members keep the order in which their keys were read.
#[derive(Debug, PartialEq)]
pub enum JsonValue {
    Null,
    Bool(bool),
    Number(Number),
    String(String),
    Array(Vec<JsonValue>),
    Object(Vec<(String, JsonValue)>),
}

/// The mathematical form of a `JsonValue`: strings as character sequences,
/// arrays and objects as sequences.
pub enum ValueView {
    Null,
    Bool(bool),
    Number(Seq<char>),
    Str(Seq<char>),
    Array(Seq<ValueView>),
    Object(Seq<(Seq<char>, ValueView)>),
}

pub open spec fn view_of(v: JsonValue) -> ValueView
    decreases v,
{
    match v {
        JsonValue::Null => ValueView::Null,
        JsonValue::Bool(b) => ValueView::Bool(b),
        JsonValue::Number(n) => ValueView::Number(n@),
        JsonValue::String(s) => ValueView::Str(s@),
        JsonValue::Array(a) => ValueView::Array(
            Seq::new(
                a.len() as nat,
                |i: int|
                    if 0 <= i < a.len() {
                        view_of(a[i])
                    } else {
                        ValueView::Null
                    },
            ),
        ),
        JsonValue::Object(m) => ValueView::Object(
            Seq::new(
                m.len() as nat,
                |i: int|
                    if 0 <= i < m.len() {
                        (m[i].0@, view_of(m[i].1))
                    } else {
                        (Seq::empty(), ValueView::Null)
                    },
            ),
        ),
    }
}

impl View for JsonValue {
    type V = ValueView;

    open spec fn view(&self) -> ValueView {
        view_of(*self)
    }
}

/// No object, at any depth, has two members with the same key.
pub open spec fn keys_unique(v: ValueView) -> bool
    decreases v,
{
    match v {
        ValueView::Object(m) => (forall|i: int, j: int|
            0 <= i < j < m.len() ==> #[trigger] m[i].0 != #[trigger] m[j].0) && forall|i: int|
            0 <= i < m.len() ==> keys_unique(#[trigger] m[i].1),
        ValueView::Array(a) => forall|i: int| 0 <= i < a.len() ==> keys_unique(#[trigger] a[i]),
        _ => true,
    }
}

/// Every document of a parse result has unique keys at every depth.
pub open spec fn result_keys_unique(p: ParseResultView) -> bool {
    match p {
        ParseResultView::Single(v) => keys_unique(v),
        ParseResultView::JsonL(vs) => forall|i: int| 0 <= i < vs.len() ==> keys_unique(#[trigger] vs[i]),
    }
}

/// The index of the first member of `m` named `key`.
pub open spec fn member_index_from(m: Seq<(Seq<char>, ValueView)>, key: Seq<char>, i: int) -> Option<int>
    decreases m.len() - i,
{
    if i < 0 || i >= m.len() {
        None
    } else if m[i].0 == key {
        Some(i)
    } else {
        member_index_from(m, key, i + 1)
    }
}

impl JsonValue {
    /// The value of the first member named `key`, for an object that has one.
    pub fn get(&self, key: &str) -> (r: Option<&JsonValue>)
        ensures
            match self@ {
                ValueView::Object(m) => match member_index_from(m, key@, 0) {
                    Some(i) => r matches Some(v) && v@ == m[i].1,
                    None => r is None,
                },
                _ => r is None,
            },
    {
        match self {
            JsonValue::Object(members) => {
                let ghost m = self@->Object_0;
                let wanted = String::from_str(key);
                let mut i: usize = 0;
                while i < members.len()
                    invariant
                        i <= members.len(),
                        m == self@->Object_0,
                        self@ is Object,
                        wanted@ == key@,
                        m.len() == members.len(),
                        forall|j: int| 0 <= j < members.len() ==> #[trigger] m[j] == (members@[j].0@, members@[j].1@),
                        member_index_from(m, key@, 0) == member_index_from(m, key@, i as int),
                    decreases members.len() - i,
                {
                    if members[i].0 == wanted {
                        assert(m[i as int] == (members@[i as int].0@, members@[i as int].1@));
                        return Some(&members[i].1);
                    }
                    i += 1;
                }
                None
            },
            _ => None,
        }
    }

    /// Element `i`, for an array that has one.
    pub fn at(&self, i: usize) -> (r: Option<&JsonValue>)
        ensures
            match self@ {
                ValueView::Array(a) => if i < a.len() {
                    r matches Some(v) && v@ == a[i as int]
                } else {
                    r is None
                },
                _ => r is None,
            },
    {
        match self {
            JsonValue::Array(items) => if i < items.len() {
                Some(&items[i])
            } else {
                None
            },
            _ => None,
        }
    }

    /// The elements, for an array.
    pub fn as_array(&self) -> (r: Option<&Vec<JsonValue>>)
        ensures
            match self@ {
                ValueView::Array(a) => r matches Some(items) && items@.map_values(|v: JsonValue| v@) == a,
                _ => r is None,
            },
    {
        match self {
            JsonValue::Array(items) => {
                assert(items@.map_values(|v: JsonValue| v@) =~= self@->Array_0);
                Some(items)
            },
            _ => None,
        }
    }

    /// The text, for a string.
    pub fn as_str(&self) -> (r: Option<&str>)
        ensures
            match self@ {
                ValueView::Str(s) => r matches Some(t) && t@ == s,
                _ => r is None,
            },
    {
        match self {
            JsonValue::String(s) => Some(s.as_str()),
            _ => None,
        }
    }

    /// The number, for a number.
    pub fn as_number(&self) -> (r: Option<&Number>)
        ensures
            match self@ {
                ValueView::Number(t) => r matches Some(n) && n@ == t,
                _ => r is None,
            },
    {
        match self {
            JsonValue::Number(n) => Some(n),
            _ => None,
        }
    }

    /// The boolean, for a boolean.
    pub fn as_bool(&self) -> (r: Option<bool>)
        ensures
            match self@ {
                ValueView::Bool(b) => r == Some(b),
                _ => r is None,
            },
    {
        match self {
            JsonValue::Bool(b) => Some(*b),
            _ => None,
        }
    }

    /// Whether the value is null.
    pub fn is_null(&self) -> (r: bool)
        ensures
            r == (self@ is Null),
    {
        match self {
            JsonValue::Null => true,
            _ => false,
        }
    }
}

/// What a parser hands to the tree builder: one document, or one document per
/// non-blank line of a JSON Lines input.
#[derive(Debug, PartialEq)]
pub enum ParseResult {
    Single(JsonValue),
    JsonL(Vec<JsonValue>),
}

pub enum ParseResultView {
    Single(ValueView),
    JsonL(Seq<ValueView>),
}

impl View for ParseResult {
    type V = ParseResultView;

    open spec fn view(&self) -> ParseResultView {
        match self {
            ParseResult::Single(v) => ParseResultView::Single(v@),
            ParseResult::JsonL(vs) => ParseResultView::JsonL(vs@.map_values(|v: JsonValue| v@)),
        }
    }
}

} // verus!
