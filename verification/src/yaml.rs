//! Loading a configuration from YAML text. The text is parsed by
//! `serde_yaml`; which entries a configuration reads, and what it makes of
//! them, is decided here.

use crate::config::{Config, ConfigView};
use crate::document::{
    outcome_view, Document, DocumentView, FieldValue, FieldView, LoadError, LoadErrorView,
};
use vstd::prelude::*;
use vstd::string::*;

verus! {

/// A parsed YAML value of `serde_yaml`. Its inside is not visible here.
#[verifier::external_type_specification]
#[verifier::external_body]
pub struct ExValue(serde_yaml::Value);

/// The error of `serde_yaml`. Its inside is not visible here.
#[verifier::external_type_specification]
#[verifier::external_body]
pub struct ExError(serde_yaml::Error);

/// What `serde_yaml::from_str` makes of a text when asked for a `Value`.
pub uninterp spec fn yaml_parsed(content: Seq<char>) -> Result<serde_yaml::Value, serde_yaml::Error>;

/// What `serde_yaml::from_slice` makes of bytes when asked for a `Value`.
pub uninterp spec fn yaml_parsed_bytes(content: Seq<u8>) -> Result<
    serde_yaml::Value,
    serde_yaml::Error,
>;

/// What a `serde_yaml::Error` prints as.
pub uninterp spec fn yaml_error_text(error: serde_yaml::Error) -> Seq<char>;

/// Whether `Value::is_null` holds of a value.
pub uninterp spec fn yaml_is_null(value: serde_yaml::Value) -> bool;

/// Whether `Value::is_mapping` holds of a value.
pub uninterp spec fn yaml_is_mapping(value: serde_yaml::Value) -> bool;

/// What `Value::get` finds in a value under a string key.
pub uninterp spec fn yaml_entry(value: serde_yaml::Value, key: Seq<char>) -> Option<
    serde_yaml::Value,
>;

/// What `Value::as_str` gives for a value.
pub uninterp spec fn yaml_text(value: serde_yaml::Value) -> Option<Seq<char>>;

/// What `Value::as_i64` gives for a value.
pub uninterp spec fn yaml_integer(value: serde_yaml::Value) -> Option<i64>;

/// Calls `serde_yaml::from_str` for a `Value`. Trusted: the outcome depends
/// on the text alone, so it has the name `yaml_parsed`.
#[verifier::external_body]
fn parse(content: &str) -> (r: Result<serde_yaml::Value, serde_yaml::Error>)
    ensures
        r == yaml_parsed(content@),
{
    serde_yaml::from_str::<serde_yaml::Value>(content)
}

/// Calls `serde_yaml::from_slice` for a `Value`. Trusted: the outcome
/// depends on the bytes alone, so it has the name `yaml_parsed_bytes`.
#[verifier::external_body]
fn parse_bytes(content: &[u8]) -> (r: Result<serde_yaml::Value, serde_yaml::Error>)
    ensures
        r == yaml_parsed_bytes(content@),
{
    serde_yaml::from_slice::<serde_yaml::Value>(content)
}

/// Formats a `serde_yaml::Error` through its `Display`. Trusted: the text
/// depends on the error alone, so it has the name `yaml_error_text`.
#[verifier::external_body]
fn error_text(error: &serde_yaml::Error) -> (s: String)
    ensures
        s@ == yaml_error_text(*error),
{
    format!("{}", error)
}

/// Calls `Value::is_null`. Trusted: the answer has the name
/// `yaml_is_null`.
#[verifier::external_body]
fn is_null(value: &serde_yaml::Value) -> (b: bool)
    ensures
        b == yaml_is_null(*value),
{
    value.is_null()
}

/// Calls `Value::is_mapping`. Trusted: the answer has the name
/// `yaml_is_mapping`.
#[verifier::external_body]
fn is_mapping(value: &serde_yaml::Value) -> (b: bool)
    ensures
        b == yaml_is_mapping(*value),
{
    value.is_mapping()
}

/// Calls `Value::get` with a string key. Trusted: what is found has the
/// name `yaml_entry`.
#[verifier::external_body]
fn entry<'a>(value: &'a serde_yaml::Value, key: &str) -> (r: Option<&'a serde_yaml::Value>)
    ensures
        match r {
            Some(v) => yaml_entry(*value, key@) == Some(*v),
            None => yaml_entry(*value, key@) is None,
        },
{
    value.get(key)
}

/// Calls `Value::as_str`. Trusted: the string has the name `yaml_text`.
#[verifier::external_body]
fn as_text<'a>(value: &'a serde_yaml::Value) -> (r: Option<&'a str>)
    ensures
        match r {
            Some(s) => yaml_text(*value) == Some(s@),
            None => yaml_text(*value) is None,
        },
{
    value.as_str()
}

/// Calls `Value::as_i64`. Trusted: the integer has the name `yaml_integer`.
#[verifier::external_body]
fn as_integer(value: &serde_yaml::Value) -> (r: Option<i64>)
    ensures
        r == yaml_integer(*value),
{
    value.as_i64()
}

/// How a configuration reads a value: as a string if it is one, else as an
/// integer if it is one of 64 bits, else as something it cannot use.
pub open spec fn field_of(value: serde_yaml::Value) -> FieldView {
    match yaml_text(value) {
        Some(s) => FieldView::Text(s),
        None => match yaml_integer(value) {
            Some(n) => FieldView::Integer(n),
            None => FieldView::Other,
        },
    }
}

/// The entry of a parsed value under `key`, as a configuration reads it.
pub open spec fn entry_of(value: serde_yaml::Value, key: Seq<char>) -> Option<FieldView> {
    match yaml_entry(value, key) {
        Some(v) => Some(field_of(v)),
        None => None,
    }
}

/// The entries of a parsed value under the keys of a configuration.
pub open spec fn document_of(value: serde_yaml::Value) -> DocumentView {
    DocumentView {
        access_key_id: entry_of(value, "access_key_id"@),
        secret_access_key: entry_of(value, "secret_access_key"@),
        host: entry_of(value, "host"@),
        port: entry_of(value, "port"@),
        connection_retries: entry_of(value, "connection_retries"@),
        additional_user_agent: entry_of(value, "additional_user_agent"@),
        log_level: entry_of(value, "log_level"@),
        protocol: entry_of(value, "protocol"@),
    }
}

/// Text of the error for a document that is not a mapping.
pub open spec fn not_a_mapping_message() -> Seq<char> {
    "the document is not a mapping"@
}

/// What loading gives, over the parser's outcome: the parser's error if it
/// has one; the defaults for a null document, which is what a text without
/// content is; what the entries give for a mapping; and an error for any
/// other document.
pub open spec fn load_from_parsed(
    parsed: Result<serde_yaml::Value, serde_yaml::Error>,
) -> Result<ConfigView, LoadErrorView> {
    match parsed {
        Err(e) => Err(LoadErrorView::Deserialization(yaml_error_text(e))),
        Ok(value) => if yaml_is_null(value) {
            Ok(ConfigView::default_values())
        } else if yaml_is_mapping(value) {
            document_of(value).load()
        } else {
            Err(LoadErrorView::Deserialization(not_a_mapping_message()))
        },
    }
}

/// Loading what was read never gives an `Io` error: whatever the parser
/// made of it, a failure is a deserialization error.
pub proof fn lemma_text_fails_by_deserialization(
    parsed: Result<serde_yaml::Value, serde_yaml::Error>,
)
    ensures
        load_from_parsed(parsed) is Err ==> load_from_parsed(parsed)->Err_0 is Deserialization,
{
}

fn read_field(value: &serde_yaml::Value) -> (f: FieldValue)
    ensures
        f@ == field_of(*value),
{
    match as_text(value) {
        Some(s) => FieldValue::Text(String::from_str(s)),
        None => match as_integer(value) {
            Some(n) => FieldValue::Integer(n),
            None => FieldValue::Other,
        },
    }
}

fn read_entry(value: &serde_yaml::Value, key: &str) -> (r: Option<FieldValue>)
    ensures
        crate::document::entry_view(r) == entry_of(*value, key@),
{
    match entry(value, key) {
        Some(v) => Some(read_field(v)),
        None => None,
    }
}

fn read_document(value: &serde_yaml::Value) -> (doc: Document)
    ensures
        doc@ == document_of(*value),
{
    Document {
        access_key_id: read_entry(value, "access_key_id"),
        secret_access_key: read_entry(value, "secret_access_key"),
        host: read_entry(value, "host"),
        port: read_entry(value, "port"),
        connection_retries: read_entry(value, "connection_retries"),
        additional_user_agent: read_entry(value, "additional_user_agent"),
        log_level: read_entry(value, "log_level"),
        protocol: read_entry(value, "protocol"),
    }
}

fn load_parsed(parsed: Result<serde_yaml::Value, serde_yaml::Error>) -> (r: Result<
    Config,
    LoadError,
>)
    ensures
        outcome_view(r) == load_from_parsed(parsed),
{
    match parsed {
        Err(e) => Err(LoadError::Deserialization(error_text(&e))),
        Ok(value) => {
            if is_null(&value) {
                Ok(Config::default())
            } else if is_mapping(&value) {
                Config::from_document(read_document(&value))
            } else {
                Err(LoadError::Deserialization(String::from_str("the document is not a mapping")))
            }
        },
    }
}

impl Config {
    /// Loads a configuration from YAML text. The text has to parse as one
    /// document. A mapping gives its entries under the keys of a
    /// configuration, read as `Config::from_document` says; every other
    /// key is passed over. A null document, such as an empty text or one
    /// of comments only, gives the defaults. Any other document fails.
    ///
    /// An entry is taken as the YAML value that the parser makes of it. So
    /// a text field refuses an unquoted number (`secret_access_key: 1234`),
    /// an unquoted boolean and an entry without a value (`log_level:`),
    /// which are a number, a boolean and null: such a text has to stand in
    /// quotes.
    pub fn load_from_str(content: &str) -> (r: Result<Config, LoadError>)
        ensures
            outcome_view(r) == load_from_parsed(yaml_parsed(content@)),
    {
        load_parsed(parse(content))
    }

    /// Loads a configuration from what reading a source gave: its bytes, or
    /// the message of the failure to read it. A failed read is an `Io`
    /// error with that message. Bytes go to the parser as they are, which
    /// decides on their encoding, and what it makes of them is loaded as
    /// `Config::load_from_str` loads a text; bytes that are no text in any
    /// encoding it knows fail as a deserialization error.
    pub fn load_from_read(read: Result<Vec<u8>, String>) -> (r: Result<Config, LoadError>)
        ensures
            outcome_view(r) == match read {
                Ok(content) => load_from_parsed(yaml_parsed_bytes(content@)),
                Err(msg) => Err(LoadErrorView::Io(msg@)),
            },
    {
        match read {
            Ok(content) => load_parsed(parse_bytes(content.as_slice())),
            Err(msg) => Err(LoadError::Io(msg)),
        }
    }
}

} // verus!
