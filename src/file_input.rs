use vstd::prelude::*;
use vstd::utf8::{decode_utf8, valid_utf8};
use crate::json_reader::{
    error_text, json_reading, parse_json_content, parse_text_content, parse_yaml_content,
    result_view, text_reading, yaml_reading, ParseError, ParseErrorView,
};
use crate::parquet_reader::{parquet_reading, parse_parquet_content};
use crate::tree_model::{build_tree_from_parse_result, tree_of, TreeNode};
use crate::value::{ParseResult, ParseResultView};

verus! {

/// The extension of the last component of `p`, as `std::path::Path::extension`
/// finds it under the path rules of the target the crate is built for.
pub uninterp spec fn path_extension(p: Seq<char>) -> Option<Seq<char>>;

/// The last component of `p`, as `std::path::Path::file_name` finds it under
/// the path rules of the target the crate is built for.
pub uninterp spec fn path_file_name(p: Seq<char>) -> Option<Seq<char>>;

/// The lowercase form of `s`, as `str::to_lowercase` gives it.
pub uninterp spec fn lowercase_text(s: Seq<char>) -> Seq<char>;

/// Relies on `std::path::Path::extension`; a path given as `&str` has UTF-8
/// components, so `OsStr::to_str` keeps them.
#[verifier::external_body]
fn extension_of(path: &str) -> (r: Option<String>)
    ensures
        match r {
            Some(e) => path_extension(path@) == Some(e@),
            None => path_extension(path@) is None,
        },
{
    std::path::Path::new(path).extension().and_then(|e| e.to_str()).map(|e| e.to_string())
}

/// Relies on `std::path::Path::file_name`; a path given as `&str` has UTF-8
/// components, so `OsStr::to_str` keeps them.
#[verifier::external_body]
fn file_name_of(path: &str) -> (r: Option<String>)
    ensures
        match r {
            Some(n) => path_file_name(path@) == Some(n@),
            None => path_file_name(path@) is None,
        },
{
    std::path::Path::new(path).file_name().and_then(|n| n.to_str()).map(|n| n.to_string())
}

/// Relies on `str::to_lowercase`, whose result depends on the text alone.
#[verifier::external_body]
fn to_lowercase(s: &str) -> (r: String)
    ensures
        r@ == lowercase_text(s@),
{
    s.to_lowercase()
}

/// Relies on `String::from_utf8`: it fails exactly when the bytes are not
/// UTF-8, and otherwise holds the characters they encode.
#[verifier::external_body]
fn utf8_text(bytes: Vec<u8>) -> (r: Option<String>)
    ensures
        match r {
            Some(s) => valid_utf8(bytes@) && s@ == decode_utf8(bytes@),
            None => !valid_utf8(bytes@),
        },
{
    String::from_utf8(bytes).ok()
}

/// How a file is read, chosen by its extension.
#[derive(Debug, Clone, Copy, PartialEq, Eq, Structural)]
pub enum FileFormat {
    /// `.json` and `.jsonl`: JSON or JSON Lines.
    Json,
    /// `.yaml` and `.yml`.
    Yaml,
    /// `.parquet`.
    Parquet,
    /// Anything else: JSON first, then YAML.
    Text,
}

/// The format for a path: its extension, compared without regard to case.
pub open spec fn format_of(path: Seq<char>) -> FileFormat {
    let e = lowercase_text(
        match path_extension(path) {
            Some(x) => x,
            None => Seq::empty(),
        },
    );
    if e == "json"@ || e == "jsonl"@ {
        FileFormat::Json
    } else if e == "yaml"@ || e == "yml"@ {
        FileFormat::Yaml
    } else if e == "parquet"@ {
        FileFormat::Parquet
    } else {
        FileFormat::Text
    }
}

/// The format in which the file at `path` is read.
pub fn file_format(path: &str) -> (r: FileFormat)
    ensures
        r == format_of(path@),
{
    let ext = match extension_of(path) {
        Some(e) => e,
        None => String::new(),
    };
    let e = to_lowercase(ext.as_str());
    if e == String::from_str("json") || e == String::from_str("jsonl") {
        FileFormat::Json
    } else if e == String::from_str("yaml") || e == String::from_str("yml") {
        FileFormat::Yaml
    } else if e == String::from_str("parquet") {
        FileFormat::Parquet
    } else {
        FileFormat::Text
    }
}

/// What text read in a textual format holds.
pub open spec fn text_format_reading(format: FileFormat, text: Seq<char>) -> Result<ParseResultView, ParseErrorView> {
    match format {
        FileFormat::Json => json_reading(text),
        FileFormat::Yaml => yaml_reading(text),
        _ => text_reading(text),
    }
}

/// What `std::fs::read_to_string` reports for a file that is not UTF-8.
pub const NOT_UTF8: &'static str = "stream did not contain valid UTF-8";

/// What the file at `path` holds, given the outcome of reading its bytes: an
/// `IoError` with the read's message when the read failed; for a Parquet file,
/// its Parquet reading; for any other file, an `IoError` when it is not UTF-8,
/// else what its text holds in the format its extension names.
pub open spec fn file_reading(path: Seq<char>, read: Result<Vec<u8>, String>) -> Result<ParseResultView, ParseErrorView> {
    match read {
        Err(m) => Err(ParseErrorView::IoError(m@)),
        Ok(data) => if format_of(path) == FileFormat::Parquet {
            parquet_reading(data@)
        } else if !valid_utf8(data@) {
            Err(ParseErrorView::IoError(NOT_UTF8@))
        } else {
            text_format_reading(format_of(path), decode_utf8(data@))
        },
    }
}

/// Reads the contents of the file at `path`, given as the outcome of reading
/// its bytes, as `file_reading` says.
pub fn parse_file_content(path: &str, read: Result<Vec<u8>, String>) -> (r: Result<ParseResult, ParseError>)
    ensures
        result_view(r) == file_reading(path@, read),
{
    let data = match read {
        Ok(data) => data,
        Err(m) => return Err(ParseError::IoError(m)),
    };
    let format = file_format(path);
    if format == FileFormat::Parquet {
        return parse_parquet_content(data.as_slice());
    }
    let text = match utf8_text(data) {
        Some(t) => t,
        None => return Err(ParseError::IoError(String::from_str(NOT_UTF8))),
    };
    match format {
        FileFormat::Json => parse_json_content(text.as_str()),
        FileFormat::Yaml => parse_yaml_content(text.as_str()),
        _ => parse_text_content(text.as_str()),
    }
}

/// The name under which a file is shown: its last path component, or `File`.
pub open spec fn display_name_of(path: Seq<char>) -> Seq<char> {
    match path_file_name(path) {
        Some(n) => n,
        None => "File"@,
    }
}

/// The name under which the file at `path` is shown.
pub fn build_display_name(path: &str) -> (r: String)
    ensures
        r@ == display_name_of(path@),
{
    match file_name_of(path) {
        Some(n) => n,
        None => String::from_str("File"),
    }
}

/// The tree of the file at `path`, shown under its display name, or the text of
/// the error that reading it gave.
pub fn parse_file_at(path: &str, read: Result<Vec<u8>, String>) -> (r: Result<TreeNode, String>)
    ensures
        match r {
            Ok(t) => file_reading(path@, read) matches Ok(p) && t@ == tree_of(p, display_name_of(path@)),
            Err(m) => file_reading(path@, read) matches Err(e) && m@ == error_text(e),
        },
{
    let display_name = build_display_name(path);
    match parse_file_content(path, read) {
        Ok(parsed) => {
            let ghost p = parsed@;
            let t = build_tree_from_parse_result(parsed, display_name.as_str());
            assert(tree_of(p, display_name_of(path@)) == t@);
            Ok(t)
        },
        Err(e) => {
            let m = e.message();
            Err(m)
        },
    }
}

} // verus!
