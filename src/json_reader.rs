use vstd::prelude::*;
use crate::codec::{json_document, parse_json_value, parse_yaml_value, yaml_document};
use crate::text::{is_blank, is_blank_line, push_text, split_lines, text_lines, views_of_strings};
use crate::value::{keys_unique, result_keys_unique, JsonValue, ParseResult, ParseResultView, ValueView};

verus! {

/// Why a document could not be read; each carries the reader's own message.
#[derive(Debug, PartialEq)]
pub enum ParseError {
    InvalidJson(String),
    InvalidYaml(String),
    InvalidParquet(String),
    IoError(String),
}

pub enum ParseErrorView {
    InvalidJson(Seq<char>),
    InvalidYaml(Seq<char>),
    InvalidParquet(Seq<char>),
    IoError(Seq<char>),
}

impl View for ParseError {
    type V = ParseErrorView;

    open spec fn view(&self) -> ParseErrorView {
        match self {
            ParseError::InvalidJson(m) => ParseErrorView::InvalidJson(m@),
            ParseError::InvalidYaml(m) => ParseErrorView::InvalidYaml(m@),
            ParseError::InvalidParquet(m) => ParseErrorView::InvalidParquet(m@),
            ParseError::IoError(m) => ParseErrorView::IoError(m@),
        }
    }
}

/// A parse outcome as mathematical values.
pub open spec fn result_view(r: Result<ParseResult, ParseError>) -> Result<ParseResultView, ParseErrorView> {
    match r {
        Ok(p) => Ok(p@),
        Err(e) => Err(e@),
    }
}

/// The text that tells a reader what went wrong: the kind, a colon, the message.
pub open spec fn error_text(e: ParseErrorView) -> Seq<char> {
    match e {
        ParseErrorView::InvalidJson(m) => "Invalid JSON: "@ + m,
        ParseErrorView::InvalidYaml(m) => "Invalid YAML: "@ + m,
        ParseErrorView::InvalidParquet(m) => "Invalid Parquet: "@ + m,
        ParseErrorView::IoError(m) => "I/O error: "@ + m,
    }
}

impl ParseError {
    /// `Invalid JSON: <message>` and so on, one prefix per kind.
    pub fn message(&self) -> (r: String)
        ensures
            r@ == error_text(self@),
    {
        let (prefix, m) = match self {
            ParseError::InvalidJson(m) => ("Invalid JSON: ", m),
            ParseError::InvalidYaml(m) => ("Invalid YAML: ", m),
            ParseError::InvalidParquet(m) => ("Invalid Parquet: ", m),
            ParseError::IoError(m) => ("I/O error: ", m),
        };
        let mut r = String::from_str(prefix);
        push_text(&mut r, m.as_str());
        r
    }
}

/// What reading one line gives: nothing for a blank line, else the line's
/// JSON reading.
pub open spec fn line_outcome(line: Seq<char>) -> Option<Result<ValueView, Seq<char>>> {
    if is_blank(line) {
        None
    } else {
        Some(json_document(line))
    }
}

/// The values of the lines' outcomes, blank lines skipped, if no line failed.
pub open spec fn outcome_values(outs: Seq<Option<Result<ValueView, Seq<char>>>>) -> Option<Seq<ValueView>>
    decreases outs.len(),
{
    if outs.len() == 0 {
        Some(Seq::empty())
    } else {
        match outcome_values(outs.drop_last()) {
            None => None,
            Some(vs) => match outs.last() {
                None => Some(vs),
                Some(Ok(v)) => Some(vs.push(v)),
                Some(Err(_)) => None,
            },
        }
    }
}

/// The values of the non-blank lines, in order, if each of them is one JSON
/// document.
pub open spec fn line_values(lines: Seq<Seq<char>>) -> Option<Seq<ValueView>> {
    outcome_values(lines.map_values(|l: Seq<char>| line_outcome(l)))
}

/// JSON Lines, when the text has more than one line and its non-blank lines
/// gave at least one value and no failure.
pub open spec fn lines_choice(line_count: nat, values: Option<Seq<ValueView>>) -> Option<ParseResultView> {
    match values {
        Some(vs) => if line_count > 1 && vs.len() > 0 {
            Some(ParseResultView::JsonL(vs))
        } else {
            None
        },
        None => None,
    }
}

/// What JSON or JSON Lines text holds: JSON Lines as `lines_choice` says;
/// otherwise the single document that the whole text is, or serde_json's error
/// for the whole text.
pub open spec fn json_reading(text: Seq<char>) -> Result<ParseResultView, ParseErrorView> {
    let lines = text_lines(text);
    match lines_choice(lines.len(), line_values(lines)) {
        Some(p) => Ok(p),
        None => match json_document(text) {
            Ok(v) => Ok(ParseResultView::Single(v)),
            Err(m) => Err(ParseErrorView::InvalidJson(m)),
        },
    }
}

/// What YAML text holds: the single document it is, or serde_yaml's error.
pub open spec fn yaml_reading(text: Seq<char>) -> Result<ParseResultView, ParseErrorView> {
    match yaml_document(text) {
        Ok(v) => Ok(ParseResultView::Single(v)),
        Err(m) => Err(ParseErrorView::InvalidYaml(m)),
    }
}

/// What text of unknown format holds: its JSON reading, else its YAML reading.
pub open spec fn text_reading(text: Seq<char>) -> Result<ParseResultView, ParseErrorView> {
    match json_reading(text) {
        Ok(p) => Ok(p),
        Err(_) => yaml_reading(text),
    }
}

pub open spec fn outcome_view(o: Option<Result<JsonValue, String>>) -> Option<Result<ValueView, Seq<char>>> {
    match o {
        None => None,
        Some(Ok(v)) => Some(Ok(v@)),
        Some(Err(m)) => Some(Err(m@)),
    }
}

pub open spec fn outcomes_view(os: Seq<Option<Result<JsonValue, String>>>) -> Seq<Option<Result<ValueView, Seq<char>>>> {
    os.map_values(|o: Option<Result<JsonValue, String>>| outcome_view(o))
}

/// Every value among the outcomes has unique keys.
pub open spec fn outcomes_unique(outs: Seq<Option<Result<ValueView, Seq<char>>>>) -> bool {
    forall|j: int| 0 <= j < outs.len() ==> (#[trigger] outs[j] matches Some(Ok(v)) ==> keys_unique(v))
}

pub open spec fn values_view(vs: Seq<JsonValue>) -> Seq<ValueView> {
    vs.map_values(|v: JsonValue| v@)
}

pub open spec fn opt_values_view(o: Option<Vec<JsonValue>>) -> Option<Seq<ValueView>> {
    match o {
        Some(vs) => Some(values_view(vs@)),
        None => None,
    }
}

/// The outcome of reading each line.
fn parse_lines(lines: &Vec<String>) -> (r: Vec<Option<Result<JsonValue, String>>>)
    ensures
        outcomes_view(r@) == views_of_strings(lines@).map_values(|l: Seq<char>| line_outcome(l)),
        outcomes_unique(outcomes_view(r@)),
{
    let ghost want = views_of_strings(lines@).map_values(|l: Seq<char>| line_outcome(l));
    let mut r: Vec<Option<Result<JsonValue, String>>> = Vec::new();
    let mut i: usize = 0;
    while i < lines.len()
        invariant
            i <= lines.len(),
            want == views_of_strings(lines@).map_values(|l: Seq<char>| line_outcome(l)),
            outcomes_view(r@) == want.take(i as int),
            outcomes_unique(outcomes_view(r@)),
        decreases lines.len() - i,
    {
        let outcome = if is_blank_line(lines[i].as_str()) {
            None
        } else {
            Some(parse_json_value(lines[i].as_str()))
        };
        let ghost before = r@;
        r.push(outcome);
        proof {
            assert(want[i as int] == line_outcome(lines@[i as int]@));
            assert(outcomes_view(r@) =~= outcomes_view(before).push(outcome_view(outcome)));
            assert(want.take(i + 1) =~= want.take(i as int).push(want[i as int]));
        }
        i += 1;
    }
    assert(want.take(i as int) =~= want);
    r
}

/// Once a prefix of the outcomes fails, every longer prefix fails.
proof fn lemma_outcome_values_none(outs: Seq<Option<Result<ValueView, Seq<char>>>>, n: int)
    requires
        0 <= n <= outs.len(),
        outcome_values(outs.take(n)) is None,
    ensures
        outcome_values(outs) is None,
    decreases outs.len() - n,
{
    if n < outs.len() {
        assert(outs.take(n + 1).drop_last() =~= outs.take(n));
        lemma_outcome_values_none(outs, n + 1);
    } else {
        assert(outs.take(n) =~= outs);
    }
}

/// The values of the lines' outcomes (`None` for a blank line), or `None` when
/// a line failed.
pub fn values_of_lines(outcomes: Vec<Option<Result<JsonValue, String>>>) -> (r: Option<Vec<JsonValue>>)
    ensures
        opt_values_view(r) == outcome_values(outcomes_view(outcomes@)),
        outcomes_unique(outcomes_view(outcomes@)) ==> (r matches Some(vs) ==> forall|i: int|
            0 <= i < vs@.len() ==> keys_unique(#[trigger] vs@[i]@)),
{
    let ghost outs = outcomes_view(outcomes@);
    let mut pending = outcomes;
    let mut values: Vec<JsonValue> = Vec::new();
    let mut i: usize = 0;
    while i < pending.len()
        invariant
            i <= pending.len(),
            outs == outcomes_view(outcomes@),
            outs.len() == pending.len(),
            forall|j: int| i <= j < pending.len() ==> outcome_view(#[trigger] pending@[j]) == outs[j],
            outcome_values(outs.take(i as int)) == Some(values_view(values@)),
            outcomes_unique(outs) ==> forall|j: int| 0 <= j < values@.len() ==> keys_unique(#[trigger] values@[j]@),
        decreases pending.len() - i,
    {
        let mut taken: Option<Result<JsonValue, String>> = None;
        pending.set_and_swap(i, &mut taken);
        proof {
            assert(outs.take(i + 1).drop_last() =~= outs.take(i as int));
            assert(outs.take(i + 1).last() == outcome_view(taken));
            assert(outs[i as int] == outcome_view(taken));
        }
        match taken {
            None => {},
            Some(Ok(v)) => {
                let ghost before = values@;
                values.push(v);
                assert(values_view(values@) =~= values_view(before).push(v@));
            },
            Some(Err(m)) => {
                proof {
                    assert(outs.take(i + 1).last() == Some(Err::<ValueView, Seq<char>>(m@)));
                    assert(outcome_values(outs.take(i + 1)) is None);
                    lemma_outcome_values_none(outs, i + 1);
                }
                return None;
            },
        }
        i += 1;
    }
    assert(outs.take(i as int) =~= outs);
    Some(values)
}

pub open spec fn opt_result_view(r: Option<ParseResult>) -> Option<ParseResultView> {
    match r {
        Some(p) => Some(p@),
        None => None,
    }
}

/// JSON Lines from the values of a text's lines, as `lines_choice` says.
pub fn lines_reading(line_count: usize, line_values: Option<Vec<JsonValue>>) -> (r: Option<ParseResult>)
    ensures
        opt_result_view(r) == lines_choice(line_count as nat, opt_values_view(line_values)),
        r matches Some(p) ==> line_values matches Some(vs) && p == ParseResult::JsonL(vs),
{
    match line_values {
        Some(vs) => if line_count > 1 && vs.len() > 0 {
            let r = ParseResult::JsonL(vs);
            assert(r@ == ParseResultView::JsonL(values_view(vs@)));
            Some(r)
        } else {
            None
        },
        None => None,
    }
}

/// Reads JSON Lines, or else one JSON document; fails with `InvalidJson` and
/// serde_json's message for the whole text exactly when the text is neither.
pub fn parse_json_content(content: &str) -> (r: Result<ParseResult, ParseError>)
    ensures
        result_view(r) == json_reading(content@),
        r matches Ok(p) ==> result_keys_unique(p@),
{
    let lines = split_lines(content);
    let ghost ls = views_of_strings(lines@);
    let count = lines.len();
    let values = if count > 1 {
        values_of_lines(parse_lines(&lines))
    } else {
        None
    };
    proof {
        if count > 1 {
            assert(opt_values_view(values) == line_values(ls));
        }
    }
    match lines_reading(count, values) {
        Some(p) => return Ok(p),
        None => {},
    }
    match parse_json_value(content) {
        Ok(v) => Ok(ParseResult::Single(v)),
        Err(e) => Err(ParseError::InvalidJson(e)),
    }
}

/// Reads one YAML document; fails with `InvalidYaml` and serde_yaml's message
/// exactly when the text is not one.
pub fn parse_yaml_content(content: &str) -> (r: Result<ParseResult, ParseError>)
    ensures
        result_view(r) == yaml_reading(content@),
        r matches Ok(p) ==> result_keys_unique(p@),
{
    match parse_yaml_value(content) {
        Ok(v) => Ok(ParseResult::Single(v)),
        Err(e) => Err(ParseError::InvalidYaml(e)),
    }
}

/// Reads text of unknown format: as JSON or JSON Lines first, then as YAML,
/// whose error is the one returned when both fail.
pub fn parse_text_content(content: &str) -> (r: Result<ParseResult, ParseError>)
    ensures
        result_view(r) == text_reading(content@),
        r matches Ok(p) ==> result_keys_unique(p@),
{
    match parse_json_content(content) {
        Ok(p) => Ok(p),
        Err(_) => parse_yaml_content(content),
    }
}

} // verus!
