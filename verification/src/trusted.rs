//! The calls into outside crates and into std, each with the contract that the rest
//! of the library relies on. Nothing here is proved: each contract restates what the
//! called code does, as its source and documentation show it.

use vstd::prelude::*;
use crate::chars::opt_text;
use crate::toml_doc::{TomlItem, TomlTable, TomlValue};

verus! {

#[verifier::external_type_specification]
#[verifier::external_body]
pub struct ExTomlValue(toml::Value);

#[verifier::external_type_specification]
#[verifier::external_body]
#[verifier::reject_recursive_types(K)]
#[verifier::reject_recursive_types(V)]
pub struct ExTomlMap<K, V>(toml::map::Map<K, V>);

/// Whether `regex::Regex::new` accepts `pattern`.
pub uninterp spec fn regex_compiles(pattern: Seq<char>) -> bool;

/// Whether the regex that `regex::Regex::new` builds from `pattern` matches
/// somewhere in `haystack` (`Regex::is_match`).
pub uninterp spec fn regex_finds(pattern: Seq<char>, haystack: Seq<char>) -> bool;

/// Calls `regex::Regex::new(pattern)` and, when it succeeds, `Regex::is_match(haystack)`.
/// Claims only that the outcome depends on the pattern and the haystack alone.
#[verifier::external_body]
pub(crate) fn regex_is_match(pattern: &str, haystack: &str) -> (r: Option<bool>)
    ensures
        r is Some <==> regex_compiles(pattern@),
        r matches Some(b) ==> b == regex_finds(pattern@, haystack@),
{
    match regex::Regex::new(pattern) {
        Ok(re) => Some(re.is_match(haystack)),
        Err(_) => None,
    }
}

/// The document that the `toml` crate reads from `text` (`str::parse::<toml::Table>`),
/// held as library values; none when the crate refuses the text.
pub uninterp spec fn toml_document(text: Seq<char>) -> Option<TomlTable>;

/// Converts one value of the `toml` crate into the library's form, one for one; the
/// printed text of each item is what `toml::Value`'s `Display` gives.
#[verifier::external_body]
fn toml_item_of(v: &toml::Value) -> TomlItem {
    let value = match v {
        toml::Value::String(s) => TomlValue::Str(s.clone()),
        toml::Value::Array(a) => TomlValue::Array(a.iter().map(toml_item_of).collect()),
        toml::Value::Table(t) => TomlValue::Table(toml_table_of(t)),
        toml::Value::Integer(_) | toml::Value::Float(_) => TomlValue::Other,
        toml::Value::Boolean(_) | toml::Value::Datetime(_) => TomlValue::Other,
    };
    TomlItem { value, shown: v.to_string() }
}

/// Converts a table of the `toml` crate into the library's form, keeping its order.
#[verifier::external_body]
fn toml_table_of(t: &toml::map::Map<String, toml::Value>) -> TomlTable {
    TomlTable { entries: t.iter().map(|(k, v)| (k.clone(), toml_item_of(v))).collect() }
}

/// Parses `text` with the `toml` crate (`str::parse::<toml::Table>`). Claims that the
/// outcome depends on the text alone.
#[verifier::external_body]
pub(crate) fn parse_toml_document(text: &str) -> (r: Option<TomlTable>)
    ensures
        r == toml_document(text@),
{
    match text.parse::<toml::Table>() {
        Ok(t) => Some(toml_table_of(&t)),
        Err(_) => None,
    }
}


/// The serialization of the URL that `url::Url::parse` reads from `text`; none when it
/// refuses the text.
pub uninterp spec fn url_parsed(text: Seq<char>) -> Option<Seq<char>>;

/// Calls `url::Url::parse(text)` and keeps the parsed URL as its serialization
/// (`Url::as_str`). Claims that the outcome depends on the text alone.
#[verifier::external_body]
pub(crate) fn parse_url(text: &str) -> (r: Option<String>)
    ensures
        opt_text(r) == url_parsed(text@),
{
    match url::Url::parse(text) {
        Ok(u) => Some(u.as_str().to_string()),
        Err(_) => None,
    }
}

/// Whether the bytes are valid UTF-8 (`std::str::from_utf8` succeeds on them).
pub uninterp spec fn utf8_decodes(bytes: Seq<u8>) -> bool;

/// Calls `std::str::from_utf8(bytes)` and tells whether it succeeded. Claims that the
/// answer depends on the bytes alone.
#[verifier::external_body]
pub(crate) fn is_utf8(bytes: &Vec<u8>) -> (r: bool)
    ensures
        r == utf8_decodes(bytes@),
{
    std::str::from_utf8(bytes.as_slice()).is_ok()
}

/// The text in capitals that `str::to_uppercase` gives for `s`.
pub uninterp spec fn upper_text(s: Seq<char>) -> Seq<char>;

/// Calls `str::to_uppercase`. Claims that the result depends on the text alone.
#[verifier::external_body]
pub(crate) fn to_upper(s: &str) -> (r: String)
    ensures
        r@ == upper_text(s@),
{
    s.to_uppercase()
}

/// The parent that `std::path::Path::parent` gives for the path `p`: none for a root or
/// an empty path.
pub uninterp spec fn path_parent(p: Seq<char>) -> Option<Seq<char>>;

/// Calls `Path::new(p).parent()` and keeps the parent as text. Claims that the result
/// depends on the path alone.
#[verifier::external_body]
pub(crate) fn parent_path(p: &str) -> (r: Option<String>)
    ensures
        opt_text(r) == path_parent(p@),
{
    match std::path::Path::new(p).parent() {
        Some(q) => Some(q.to_string_lossy().into_owned()),
        None => None,
    }
}

} // verus!
