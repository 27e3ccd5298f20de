//! A configuration document as plain values, and how a configuration is
//! made from one: the entries that are present replace the defaults.

use crate::config::{ascii_lowered, protocol_named, Config, ConfigView, Protocol};
use vstd::prelude::*;
use vstd::string::*;

verus! {

/// Why a configuration could not be loaded.
#[derive(Debug)]
pub enum LoadError {
    /// The text is not a document of the expected form, or an entry has a
    /// value that its field cannot take.
    Deserialization(String),
    /// The source could not be read.
    Io(String),
}

/// A load error as plain values.
pub ghost enum LoadErrorView {
    Deserialization(Seq<char>),
    Io(Seq<char>),
}

impl View for LoadError {
    type V = LoadErrorView;

    open spec fn view(&self) -> LoadErrorView {
        match self {
            LoadError::Deserialization(msg) => LoadErrorView::Deserialization(msg@),
            LoadError::Io(msg) => LoadErrorView::Io(msg@),
        }
    }
}

/// Text of the error for an entry whose value its field cannot take.
pub open spec fn invalid_message(field: Seq<char>) -> Seq<char> {
    "field \""@ + field + "\" has an invalid value"@
}

impl LoadError {
    /// The error for the entry `field` holding a value that the field
    /// cannot take.
    pub fn invalid(field: &str) -> (e: LoadError)
        ensures
            e@ == LoadErrorView::Deserialization(invalid_message(field@)),
    {
        let mut msg: String = String::from_str("field \"");
        msg.append(field);
        msg.append("\" has an invalid value");
        LoadError::Deserialization(msg)
    }
}

/// The value of one entry of a document, as far as a configuration reads it.
#[derive(Debug)]
pub enum FieldValue {
    /// A string.
    Text(String),
    /// An integer that fits in 64 bits with a sign.
    Integer(i64),
    /// Anything else: a larger number, a fraction, a boolean, null, a
    /// sequence, a mapping.
    Other,
}

/// An entry's value as plain values.
pub ghost enum FieldView {
    Text(Seq<char>),
    Integer(i64),
    Other,
}

impl View for FieldValue {
    type V = FieldView;

    open spec fn view(&self) -> FieldView {
        match self {
            FieldValue::Text(s) => FieldView::Text(s@),
            FieldValue::Integer(n) => FieldView::Integer(*n),
            FieldValue::Other => FieldView::Other,
        }
    }
}

/// The view of an entry that may be absent.
pub open spec fn entry_view(entry: Option<FieldValue>) -> Option<FieldView> {
    match entry {
        Some(v) => Some(v@),
        None => None,
    }
}

/// The entries of a document under the keys that a configuration knows.
/// `None` stands for a key that the document does not have.
#[derive(Debug)]
pub struct Document {
    pub access_key_id: Option<FieldValue>,
    pub secret_access_key: Option<FieldValue>,
    pub host: Option<FieldValue>,
    pub port: Option<FieldValue>,
    pub connection_retries: Option<FieldValue>,
    pub additional_user_agent: Option<FieldValue>,
    pub log_level: Option<FieldValue>,
    pub protocol: Option<FieldValue>,
}

/// A document as plain values.
pub ghost struct DocumentView {
    pub access_key_id: Option<FieldView>,
    pub secret_access_key: Option<FieldView>,
    pub host: Option<FieldView>,
    pub port: Option<FieldView>,
    pub connection_retries: Option<FieldView>,
    pub additional_user_agent: Option<FieldView>,
    pub log_level: Option<FieldView>,
    pub protocol: Option<FieldView>,
}

impl View for Document {
    type V = DocumentView;

    open spec fn view(&self) -> DocumentView {
        DocumentView {
            access_key_id: entry_view(self.access_key_id),
            secret_access_key: entry_view(self.secret_access_key),
            host: entry_view(self.host),
            port: entry_view(self.port),
            connection_retries: entry_view(self.connection_retries),
            additional_user_agent: entry_view(self.additional_user_agent),
            log_level: entry_view(self.log_level),
            protocol: entry_view(self.protocol),
        }
    }
}

/// A text field from its entry: the default if the entry is absent, the
/// string if it holds one, and nothing for any other value.
pub open spec fn text_field(entry: Option<FieldView>, default: Seq<char>) -> Option<Seq<char>> {
    match entry {
        None => Some(default),
        Some(FieldView::Text(s)) => Some(s),
        Some(_) => None,
    }
}

/// The port from its entry: the default if the entry is absent, the integer
/// if it lies in `0..=65535`, and nothing for any other value.
pub open spec fn port_field(entry: Option<FieldView>, default: u16) -> Option<u16> {
    match entry {
        None => Some(default),
        Some(FieldView::Integer(n)) => if 0 <= n <= u16::MAX {
            Some(n as u16)
        } else {
            None
        },
        Some(_) => None,
    }
}

/// The number of retries from its entry: the default if the entry is
/// absent, the integer if it fits in 32 bits with a sign, and nothing for
/// any other value.
pub open spec fn retries_field(entry: Option<FieldView>, default: i32) -> Option<i32> {
    match entry {
        None => Some(default),
        Some(FieldView::Integer(n)) => if i32::MIN <= n <= i32::MAX {
            Some(n as i32)
        } else {
            None
        },
        Some(_) => None,
    }
}

/// The protocol from its entry: the default if the entry is absent, the
/// protocol that the string names if it names one, and nothing for any
/// other value.
pub open spec fn protocol_field(entry: Option<FieldView>, default: Protocol) -> Option<Protocol> {
    match entry {
        None => Some(default),
        Some(FieldView::Text(s)) => protocol_named(s),
        Some(_) => None,
    }
}

impl DocumentView {
    /// Name of the first entry, in the order of the fields, whose value its
    /// field cannot take; `None` if every entry fits.
    pub open spec fn invalid_field(self) -> Option<Seq<char>> {
        let d = ConfigView::default_values();
        if text_field(self.access_key_id, d.access_key_id) is None {
            Some("access_key_id"@)
        } else if text_field(self.secret_access_key, d.secret_access_key) is None {
            Some("secret_access_key"@)
        } else if text_field(self.host, d.host) is None {
            Some("host"@)
        } else if port_field(self.port, d.port) is None {
            Some("port"@)
        } else if retries_field(self.connection_retries, d.connection_retries) is None {
            Some("connection_retries"@)
        } else if text_field(self.additional_user_agent, d.additional_user_agent) is None {
            Some("additional_user_agent"@)
        } else if text_field(self.log_level, d.log_level) is None {
            Some("log_level"@)
        } else if protocol_field(self.protocol, d.protocol) is None {
            Some("protocol"@)
        } else {
            None
        }
    }

    /// The configuration that a document without an invalid entry gives:
    /// each field from its entry, or its default where the entry is absent.
    pub open spec fn config(self) -> ConfigView
        recommends
            self.invalid_field() is None,
    {
        let d = ConfigView::default_values();
        ConfigView {
            access_key_id: text_field(self.access_key_id, d.access_key_id).unwrap(),
            secret_access_key: text_field(self.secret_access_key, d.secret_access_key).unwrap(),
            host: text_field(self.host, d.host).unwrap(),
            port: port_field(self.port, d.port).unwrap(),
            connection_retries: retries_field(
                self.connection_retries,
                d.connection_retries,
            ).unwrap(),
            additional_user_agent: text_field(
                self.additional_user_agent,
                d.additional_user_agent,
            ).unwrap(),
            log_level: text_field(self.log_level, d.log_level).unwrap(),
            protocol: protocol_field(self.protocol, d.protocol).unwrap(),
        }
    }

    /// What loading a document gives: the configuration, or the error that
    /// names the first invalid entry.
    pub open spec fn load(self) -> Result<ConfigView, LoadErrorView> {
        match self.invalid_field() {
            Some(field) => Err(LoadErrorView::Deserialization(invalid_message(field))),
            None => Ok(self.config()),
        }
    }
}

/// The view of a load's outcome.
pub open spec fn outcome_view(r: Result<Config, LoadError>) -> Result<ConfigView, LoadErrorView> {
    match r {
        Ok(c) => Ok(c@),
        Err(e) => Err(e@),
    }
}

fn take_text(entry: Option<FieldValue>, default: String) -> (r: Option<String>)
    ensures
        match r {
            Some(s) => text_field(entry_view(entry), default@) == Some(s@),
            None => text_field(entry_view(entry), default@) is None,
        },
{
    match entry {
        None => Some(default),
        Some(FieldValue::Text(s)) => Some(s),
        Some(_) => None,
    }
}

fn take_port(entry: Option<FieldValue>, default: u16) -> (r: Option<u16>)
    ensures
        r == port_field(entry_view(entry), default),
{
    match entry {
        None => Some(default),
        Some(FieldValue::Integer(n)) => if 0 <= n && n <= u16::MAX as i64 {
            Some(n as u16)
        } else {
            None
        },
        Some(_) => None,
    }
}

fn take_retries(entry: Option<FieldValue>, default: i32) -> (r: Option<i32>)
    ensures
        r == retries_field(entry_view(entry), default),
{
    match entry {
        None => Some(default),
        Some(FieldValue::Integer(n)) => if i32::MIN as i64 <= n && n <= i32::MAX as i64 {
            Some(n as i32)
        } else {
            None
        },
        Some(_) => None,
    }
}

fn take_protocol(entry: Option<FieldValue>, default: Protocol) -> (r: Option<Protocol>)
    ensures
        r == protocol_field(entry_view(entry), default),
{
    match entry {
        None => Some(default),
        Some(FieldValue::Text(s)) => Protocol::from_name(s.as_str()),
        Some(_) => None,
    }
}

impl Config {
    /// Makes a configuration from a document. Every entry that is present
    /// replaces the default of its field; an absent one leaves it. The load
    /// fails on the first entry, in the order of the fields, whose value
    /// its field cannot take: a text field takes a string, `port` an
    /// integer in `0..=65535`, `connection_retries` an integer of 32 bits,
    /// `protocol` one of the strings `http` and `https`, in any case of
    /// their letters.
    pub fn from_document(doc: Document) -> (r: Result<Config, LoadError>)
        ensures
            outcome_view(r) == doc@.load(),
    {
        let base: Config = Config::default();
        let access_key_id: String = match take_text(doc.access_key_id, base.access_key_id) {
            Some(s) => s,
            None => return Err(LoadError::invalid("access_key_id")),
        };
        let secret_access_key: String = match take_text(
            doc.secret_access_key,
            base.secret_access_key,
        ) {
            Some(s) => s,
            None => return Err(LoadError::invalid("secret_access_key")),
        };
        let host: String = match take_text(doc.host, base.host) {
            Some(s) => s,
            None => return Err(LoadError::invalid("host")),
        };
        let port: u16 = match take_port(doc.port, base.port) {
            Some(p) => p,
            None => return Err(LoadError::invalid("port")),
        };
        let connection_retries: i32 = match take_retries(
            doc.connection_retries,
            base.connection_retries,
        ) {
            Some(n) => n,
            None => return Err(LoadError::invalid("connection_retries")),
        };
        let additional_user_agent: String = match take_text(
            doc.additional_user_agent,
            base.additional_user_agent,
        ) {
            Some(s) => s,
            None => return Err(LoadError::invalid("additional_user_agent")),
        };
        let log_level: String = match take_text(doc.log_level, base.log_level) {
            Some(s) => s,
            None => return Err(LoadError::invalid("log_level")),
        };
        let protocol: Protocol = match take_protocol(doc.protocol, base.protocol) {
            Some(p) => p,
            None => return Err(LoadError::invalid("protocol")),
        };
        Ok(
            Config {
                access_key_id,
                secret_access_key,
                host,
                port,
                connection_retries,
                additional_user_agent,
                log_level,
                protocol,
            },
        )
    }
}

/// A document whose `protocol` entry is a string that is neither `http`
/// nor `https` in any case of its letters does not load: the outcome is a
/// deserialization error, whatever the other entries hold.
pub proof fn lemma_unrecognized_protocol_fails(doc: DocumentView, name: Seq<char>)
    requires
        doc.protocol == Some(FieldView::Text(name)),
        ascii_lowered(name) != "http"@,
        ascii_lowered(name) != "https"@,
    ensures
        doc.load() is Err,
        doc.load()->Err_0 is Deserialization,
{
}

/// A document that holds the two credentials as strings, a protocol by its
/// name and nothing else loads as the defaults with those three set. With
/// both credentials non-empty the outcome passes validation, and its port
/// is then the protocol's.
pub proof fn lemma_credentials_document_loads(
    access_key_id: Seq<char>,
    secret_access_key: Seq<char>,
    name: Seq<char>,
)
    requires
        protocol_named(name) is Some,
    ensures
        ({
            let doc = DocumentView {
                access_key_id: Some(FieldView::Text(access_key_id)),
                secret_access_key: Some(FieldView::Text(secret_access_key)),
                host: None,
                port: None,
                connection_retries: None,
                additional_user_agent: None,
                log_level: None,
                protocol: Some(FieldView::Text(name)),
            };
            let loaded = ConfigView {
                protocol: protocol_named(name).unwrap(),
                ..ConfigView::with_credentials(access_key_id, secret_access_key)
            };
            &&& doc.load() == Ok::<ConfigView, LoadErrorView>(loaded)
            &&& access_key_id.len() > 0 && secret_access_key.len() > 0
                ==> loaded.missing_field() is None
                && loaded.validated().port == protocol_named(name).unwrap().spec_port()
        }),
{
    reveal_strlit("qingstor.com");
}

} // verus!
