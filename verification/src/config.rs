//! The configuration record, its defaults and its validation.

use vstd::prelude::*;
use vstd::string::*;

verus! {

/// Transport scheme of the endpoint. It decides the port.
#[derive(Debug, Clone, Copy, PartialEq, Eq, Structural)]
pub enum Protocol {
    HTTP,
    HTTPS,
}

/// An ASCII capital letter as its small letter, and every other character
/// as it is.
pub open spec fn ascii_lowered_char(c: char) -> char {
    if 'A' <= c && c <= 'Z' {
        ((c as u8 + 32) as u8) as char
    } else {
        c
    }
}

/// A text with each of its ASCII capital letters made small.
pub open spec fn ascii_lowered(text: Seq<char>) -> Seq<char> {
    Seq::new(text.len(), |i: int| ascii_lowered_char(text[i]))
}

/// The protocol that a name stands for: `http` or `https`, whatever the
/// case of its ASCII letters.
pub open spec fn protocol_named(name: Seq<char>) -> Option<Protocol> {
    if ascii_lowered(name) == "http"@ {
        Some(Protocol::HTTP)
    } else if ascii_lowered(name) == "https"@ {
        Some(Protocol::HTTPS)
    } else {
        None
    }
}

fn lowered_char(c: char) -> (r: char)
    ensures
        r == ascii_lowered_char(c),
{
    if c >= 'A' && c <= 'Z' {
        (c as u8 + 32) as char
    } else {
        c
    }
}

/// Whether `text`, with its ASCII capital letters made small, is `word`.
fn is_word_in_any_case(text: &str, word: &str) -> (b: bool)
    ensures
        b == (ascii_lowered(text@) == word@),
{
    let n: usize = word.unicode_len();
    if text.unicode_len() != n {
        return false;
    }
    let mut i: usize = 0;
    while i < n
        invariant
            n == word@.len(),
            n == text@.len(),
            i <= n,
            forall|j: int| 0 <= j < i ==> ascii_lowered_char(text@[j]) == word@[j],
        decreases n - i,
    {
        if lowered_char(text.get_char(i)) != word.get_char(i) {
            assert(ascii_lowered(text@)[i as int] != word@[i as int]);
            return false;
        }
        i += 1;
    }
    assert(ascii_lowered(text@) =~= word@);
    true
}

impl Protocol {
    /// The port that a validated configuration gets for this protocol.
    pub open spec fn spec_port(self) -> u16 {
        match self {
            Protocol::HTTP => 80,
            Protocol::HTTPS => 443,
        }
    }

    /// The port that belongs to the protocol: 80 for HTTP, 443 for HTTPS.
    #[verifier::when_used_as_spec(spec_port)]
    pub fn port(self) -> (p: u16)
        ensures
            p == self.spec_port(),
    {
        match self {
            Protocol::HTTP => 80,
            Protocol::HTTPS => 443,
        }
    }

    /// The protocol that `name` stands for: `http` or `https`, whatever
    /// the case of its ASCII letters; `None` for every other name.
    pub fn from_name(name: &str) -> (r: Option<Protocol>)
        ensures
            r == protocol_named(name@),
    {
        if is_word_in_any_case(name, "http") {
            Some(Protocol::HTTP)
        } else if is_word_in_any_case(name, "https") {
            Some(Protocol::HTTPS)
        } else {
            None
        }
    }
}

/// Text of the error for a required field that is empty.
pub open spec fn missing_message(field: Seq<char>) -> Seq<char> {
    "field \""@ + field + "\" cannot be empty"@
}

/// What a `ConfigError` prints as: its text behind a fixed prefix.
pub open spec fn display_text(msg: Seq<char>) -> Seq<char> {
    "Config error: "@ + msg
}

/// A required field of the configuration is empty.
#[derive(Debug)]
pub struct ConfigError {
    msg: String,
}

impl View for ConfigError {
    type V = Seq<char>;

    closed spec fn view(&self) -> Seq<char> {
        self.msg@
    }
}

impl ConfigError {
    /// The error for the required field `field` being empty.
    pub fn missing(field: &str) -> (e: ConfigError)
        ensures
            e@ == missing_message(field@),
    {
        let mut msg: String = String::from_str("field \"");
        msg.append(field);
        msg.append("\" cannot be empty");
        ConfigError { msg }
    }

    /// The text to show for this error.
    pub fn message(&self) -> (s: String)
        ensures
            s@ == display_text(self@),
    {
        let mut s: String = String::from_str("Config error: ");
        s.append(self.msg.as_str());
        s
    }
}

/// Settings of a client: credentials, endpoint, protocol, retries.
#[derive(Debug)]
pub struct Config {
    pub access_key_id: String,
    pub secret_access_key: String,
    pub host: String,
    pub port: u16,
    pub connection_retries: i32,
    pub additional_user_agent: String,
    pub log_level: String,
    pub protocol: Protocol,
}

/// A configuration as plain values.
pub ghost struct ConfigView {
    pub access_key_id: Seq<char>,
    pub secret_access_key: Seq<char>,
    pub host: Seq<char>,
    pub port: u16,
    pub connection_retries: i32,
    pub additional_user_agent: Seq<char>,
    pub log_level: Seq<char>,
    pub protocol: Protocol,
}

impl View for Config {
    type V = ConfigView;

    open spec fn view(&self) -> ConfigView {
        ConfigView {
            access_key_id: self.access_key_id@,
            secret_access_key: self.secret_access_key@,
            host: self.host@,
            port: self.port,
            connection_retries: self.connection_retries,
            additional_user_agent: self.additional_user_agent@,
            log_level: self.log_level@,
            protocol: self.protocol,
        }
    }
}

impl ConfigView {
    /// The configuration in which every field has its default value.
    pub open spec fn default_values() -> ConfigView {
        ConfigView {
            access_key_id: Seq::empty(),
            secret_access_key: Seq::empty(),
            host: "qingstor.com"@,
            port: 0,
            connection_retries: 3,
            additional_user_agent: Seq::empty(),
            log_level: "INFO"@,
            protocol: Protocol::HTTPS,
        }
    }

    /// The defaults with the two credentials set.
    pub open spec fn with_credentials(
        access_key_id: Seq<char>,
        secret_access_key: Seq<char>,
    ) -> ConfigView {
        ConfigView { access_key_id, secret_access_key, ..ConfigView::default_values() }
    }

    /// Name of the first required field that is empty, in the order
    /// `access_key_id`, `secret_access_key`, `host`; `None` if none is.
    pub open spec fn missing_field(self) -> Option<Seq<char>> {
        if self.access_key_id.len() == 0 {
            Some("access_key_id"@)
        } else if self.secret_access_key.len() == 0 {
            Some("secret_access_key"@)
        } else if self.host.len() == 0 {
            Some("host"@)
        } else {
            None
        }
    }

    /// The configuration after a successful validation: the port is the
    /// protocol's, everything else is kept.
    pub open spec fn validated(self) -> ConfigView {
        ConfigView { port: self.protocol.spec_port(), ..self }
    }

    /// Whether the configuration is as validation leaves it: no required
    /// field is empty and the port is the protocol's.
    pub open spec fn is_validated(self) -> bool {
        self.missing_field() is None && self.port == self.protocol.spec_port()
    }
}

impl Clone for Config {
    fn clone(&self) -> (c: Config)
        ensures
            c@ == self@,
    {
        Config {
            access_key_id: self.access_key_id.clone(),
            secret_access_key: self.secret_access_key.clone(),
            host: self.host.clone(),
            port: self.port,
            connection_retries: self.connection_retries,
            additional_user_agent: self.additional_user_agent.clone(),
            log_level: self.log_level.clone(),
            protocol: self.protocol,
        }
    }
}

impl Default for Config {
    fn default() -> (c: Config)
        ensures
            c@ == ConfigView::default_values(),
    {
        Config {
            access_key_id: String::new(),
            secret_access_key: String::new(),
            host: String::from_str("qingstor.com"),
            port: 0,
            connection_retries: 3,
            additional_user_agent: String::new(),
            log_level: String::from_str("INFO"),
            protocol: Protocol::HTTPS,
        }
    }
}

impl Config {
    /// A configuration with the given credentials and every other field at
    /// its default.
    pub fn new(access_key_id: &String, secret_access_key: &String) -> (c: Config)
        ensures
            c@ == ConfigView::with_credentials(access_key_id@, secret_access_key@),
    {
        let mut c: Config = Config::default();
        c.access_key_id = access_key_id.clone();
        c.secret_access_key = secret_access_key.clone();
        c
    }

    /// Validates the required fields in the order `access_key_id`,
    /// `secret_access_key`, `host` and fails on the first that is empty,
    /// leaving the configuration as it was. On success the port becomes the
    /// protocol's port, whatever it was before.
    pub fn check(&mut self) -> (r: Result<(), ConfigError>)
        ensures
            match r {
                Ok(()) => old(self)@.missing_field() is None
                    && final(self)@ == old(self)@.validated()
                    && final(self)@.is_validated(),
                Err(e) => old(self)@.missing_field() is Some
                    && e@ == missing_message(old(self)@.missing_field().unwrap())
                    && final(self)@ == old(self)@,
            },
    {
        if self.access_key_id.as_str().is_empty() {
            return Err(ConfigError::missing("access_key_id"));
        }
        if self.secret_access_key.as_str().is_empty() {
            return Err(ConfigError::missing("secret_access_key"));
        }
        if self.host.as_str().is_empty() {
            return Err(ConfigError::missing("host"));
        }
        self.port = self.protocol.port();
        Ok(())
    }
}

/// The case of the letters of a protocol's name does not matter: two names
/// that differ only in the case of ASCII letters stand for the same
/// protocol, or both for none.
pub proof fn lemma_protocol_name_ignores_case(a: Seq<char>, b: Seq<char>)
    requires
        ascii_lowered(a) == ascii_lowered(b),
    ensures
        protocol_named(a) == protocol_named(b),
{
}

/// Validation passes whenever the three required fields are non-empty.
/// The validated port is then 80 exactly when the protocol is HTTP and 443
/// exactly when it is HTTPS, and it does not depend on the port before.
pub proof fn lemma_complete_config_validates(c: ConfigView)
    requires
        c.access_key_id.len() > 0,
        c.secret_access_key.len() > 0,
        c.host.len() > 0,
    ensures
        c.missing_field() is None,
        c.validated().port == 80 <==> c.protocol == Protocol::HTTP,
        c.validated().port == 443 <==> c.protocol == Protocol::HTTPS,
        forall|p: u16| (#[trigger] ConfigView { port: p, ..c }.validated()) == c.validated(),
{
}

/// An empty `access_key_id` is the field that validation reports, whatever
/// the other fields hold.
pub proof fn lemma_empty_access_key_id_fails(c: ConfigView)
    requires
        c.access_key_id.len() == 0,
    ensures
        c.missing_field() == Some("access_key_id"@),
{
}

/// With both credentials set and an empty `host`, validation reports
/// `host`.
pub proof fn lemma_empty_host_fails(c: ConfigView)
    requires
        c.access_key_id.len() > 0,
        c.secret_access_key.len() > 0,
        c.host.len() == 0,
    ensures
        c.missing_field() == Some("host"@),
{
}

/// A configuration made from two non-empty credentials passes validation:
/// the default host is not empty.
pub proof fn lemma_new_config_validates(access_key_id: Seq<char>, secret_access_key: Seq<char>)
    requires
        access_key_id.len() > 0,
        secret_access_key.len() > 0,
    ensures
        ConfigView::with_credentials(access_key_id, secret_access_key).missing_field() is None,
{
    reveal_strlit("qingstor.com");
}

} // verus!
