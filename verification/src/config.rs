//! The configuration: single values read out of a TOML document by their
//! dotted path, such as the base address of the remote symbol store.
//!
//! The document is parsed and searched by the `toml` crate. The library
//! decides what is made of the outcome.

use toml::Value;
use vstd::prelude::*;

verus! {

/// A parsed TOML document, `toml::Value`. Its inside is not visible to the
/// verifier; see [`document_entries`].
#[verifier::external_type_specification]
#[verifier::external_body]
pub struct ExValue(Value);

/// What a parsed document holds, by look-up path: `document_entries(d)` has
/// the key `p` exactly when `Value::lookup` finds a value at `p` in `d`, and
/// maps `p` to the text of that value where it is a string, and to `None`
/// where it is of another kind.
pub uninterp spec fn document_entries(document: Value) -> Map<Seq<char>, Option<Seq<char>>>;

/// What parsing a text as a TOML document gives: the entries of the
/// document, or `None` where the text is not TOML.
pub uninterp spec fn parsed_entries(text: Seq<char>) -> Option<Map<Seq<char>, Option<Seq<char>>>>;

/// Why a configuration value could not be had.
#[derive(Clone, Copy, Debug, PartialEq, Eq, Structural)]
pub enum ConfigError {
    /// The configuration is not a TOML document.
    Parse,
    /// The document holds nothing at the path.
    Missing,
    /// The document holds something at the path that is not a string.
    NotText,
}

/// What a document holds at one path.
#[derive(Debug, PartialEq, Eq)]
pub enum ConfigEntry {
    /// Nothing.
    Missing,
    /// A value that is not a string.
    NotText,
    /// A string.
    Text(String),
}

/// The mathematical content of a [`ConfigEntry`], as the entries of a
/// document give it for `path`.
pub open spec fn entry_at(entries: Map<Seq<char>, Option<Seq<char>>>, path: Seq<char>) -> Option<
    Option<Seq<char>>,
> {
    if entries.contains_key(path) {
        Some(entries[path])
    } else {
        None
    }
}

impl View for ConfigEntry {
    type V = Option<Option<Seq<char>>>;

    open spec fn view(&self) -> Option<Option<Seq<char>>> {
        match *self {
            ConfigEntry::Missing => None,
            ConfigEntry::NotText => Some(None),
            ConfigEntry::Text(text) => Some(Some(text@)),
        }
    }
}

/// Parses `text` with `toml::Value`'s `FromStr`. Taken on trust: parsing
/// depends on the text alone, so the outcome is `parsed_entries` of it; the
/// parser's errors are handed back as `None`.
#[verifier::external_body]
pub(crate) fn parse_document(text: &str) -> (document: Option<Value>)
    ensures
        match document {
            Some(d) => parsed_entries(text@) == Some(document_entries(d)),
            None => parsed_entries(text@) is None,
        },
{
    match text.parse::<Value>() {
        Ok(document) => Some(document),
        Err(_) => None,
    }
}

/// Calls `Value::lookup` and tells a string from any other value. Taken on
/// trust: the outcome is what `document_entries` holds for `path`.
#[verifier::external_body]
pub(crate) fn lookup_entry(document: &Value, path: &str) -> (entry: ConfigEntry)
    ensures
        entry@ == entry_at(document_entries(*document), path@),
{
    match document.lookup(path) {
        None => ConfigEntry::Missing,
        Some(Value::String(text)) => ConfigEntry::Text(text.clone()),
        Some(_) => ConfigEntry::NotText,
    }
}

/// The configuration value at `path`, given what parsing the configuration
/// gave: the text of the string found there, or the reason why there is
/// none.
pub open spec fn config_value(
    parsed: Option<Map<Seq<char>, Option<Seq<char>>>>,
    path: Seq<char>,
) -> Result<Seq<char>, ConfigError> {
    match parsed {
        None => Err(ConfigError::Parse),
        Some(entries) => match entry_at(entries, path) {
            None => Err(ConfigError::Missing),
            Some(None) => Err(ConfigError::NotText),
            Some(Some(text)) => Ok(text),
        },
    }
}

/// The content of a configuration value or of the reason why there is none.
pub open spec fn value_text(value: Result<String, ConfigError>) -> Result<
    Seq<char>,
    ConfigError,
> {
    match value {
        Ok(text) => Ok(text@),
        Err(e) => Err(e),
    }
}

/// The configuration value that an entry of the document stands for.
pub fn entry_value(entry: ConfigEntry) -> (value: Result<String, ConfigError>)
    ensures
        value_text(value) == match entry@ {
            None => Err::<Seq<char>, ConfigError>(ConfigError::Missing),
            Some(None) => Err(ConfigError::NotText),
            Some(Some(text)) => Ok(text),
        },
{
    match entry {
        ConfigEntry::Missing => Err(ConfigError::Missing),
        ConfigEntry::NotText => Err(ConfigError::NotText),
        ConfigEntry::Text(text) => Ok(text),
    }
}

/// Reads one value out of the text of a configuration file: the string
/// that the TOML document `contents` holds at the dotted path `value_name`.
pub fn get_config(contents: &str, value_name: &str) -> (value: Result<String, ConfigError>)
    ensures
        value_text(value) == config_value(parsed_entries(contents@), value_name@),
{
    match parse_document(contents) {
        None => Err(ConfigError::Parse),
        Some(document) => entry_value(lookup_entry(&document, value_name)),
    }
}

} // verus!
