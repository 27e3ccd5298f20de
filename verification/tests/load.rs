use qingstor_sdk::config::{Config, Protocol};
use qingstor_sdk::document::{Document, FieldValue, LoadError};

fn empty_document() -> Document {
    Document {
        access_key_id: None,
        secret_access_key: None,
        host: None,
        port: None,
        connection_retries: None,
        additional_user_agent: None,
        log_level: None,
        protocol: None,
    }
}

fn text(s: &str) -> Option<FieldValue> {
    Some(FieldValue::Text(s.to_string()))
}

fn deserialization_message(r: Result<Config, LoadError>) -> String {
    match r {
        Err(LoadError::Deserialization(msg)) => msg,
        other => panic!("expected a deserialization error, got {:?}", other),
    }
}

#[test]
fn load_minimal_document_then_check() {
    let mut c =
        Config::load_from_str("access_key_id: access_key\nsecret_access_key: secret\nprotocol: https\n")
            .unwrap();
    assert_eq!(c.access_key_id, "access_key");
    assert_eq!(c.secret_access_key, "secret");
    assert_eq!(c.protocol, Protocol::HTTPS);
    assert_eq!(c.host, "qingstor.com");
    assert_eq!(c.port, 0);
    assert_eq!(c.connection_retries, 3);
    assert_eq!(c.additional_user_agent, "");
    assert_eq!(c.log_level, "INFO");
    assert!(c.check().is_ok());
    assert_eq!(c.port, 443);
}

#[test]
fn load_rejects_unknown_protocol() {
    let r = Config::load_from_str("access_key_id: a\nsecret_access_key: s\nprotocol: ftp\n");
    assert_eq!(deserialization_message(r), "field \"protocol\" has an invalid value");
}

#[test]
fn load_takes_a_protocol_in_capitals() {
    let mut c =
        Config::load_from_str("access_key_id: access_key\nsecret_access_key: secret\nprotocol: HTTPS\n")
            .unwrap();
    assert_eq!(c.protocol, Protocol::HTTPS);
    assert_eq!(c.access_key_id, "access_key");
    c.check().unwrap();
    assert_eq!(c.port, 443);
    let mut c = Config::load_from_str("access_key_id: a\nsecret_access_key: s\nprotocol: Http\n").unwrap();
    assert_eq!(c.protocol, Protocol::HTTP);
    c.check().unwrap();
    assert_eq!(c.port, 80);
    let r = Config::load_from_str("protocol: FTP\n");
    assert_eq!(deserialization_message(r), "field \"protocol\" has an invalid value");
}

#[test]
fn load_reads_every_field() {
    let s = "access_key_id: ak\nsecret_access_key: sk\nhost: example.org\nport: 8080\n\
             connection_retries: -2\nadditional_user_agent: agent/1\nlog_level: DEBUG\nprotocol: http\n";
    let mut c = Config::load_from_str(s).unwrap();
    assert_eq!(c.access_key_id, "ak");
    assert_eq!(c.secret_access_key, "sk");
    assert_eq!(c.host, "example.org");
    assert_eq!(c.port, 8080);
    assert_eq!(c.connection_retries, -2);
    assert_eq!(c.additional_user_agent, "agent/1");
    assert_eq!(c.log_level, "DEBUG");
    assert_eq!(c.protocol, Protocol::HTTP);
    c.check().unwrap();
    assert_eq!(c.port, 80);
}

#[test]
fn load_passes_over_unknown_keys() {
    let c = Config::load_from_str("zone: pek3a\naccess_key_id: ak\n").unwrap();
    assert_eq!(c.access_key_id, "ak");
    assert_eq!(c.host, "qingstor.com");
}

#[test]
fn load_empty_mapping_gives_defaults() {
    let c = Config::load_from_str("{}").unwrap();
    assert_eq!(c.access_key_id, "");
    assert_eq!(c.host, "qingstor.com");
    assert_eq!(c.log_level, "INFO");
    assert_eq!(c.protocol, Protocol::HTTPS);
}

#[test]
fn load_rejects_malformed_text() {
    let r = Config::load_from_str("access_key_id: [unclosed\n");
    assert!(matches!(r, Err(LoadError::Deserialization(_))));
    let r = Config::load_from_str("a: 1\n---\nb: 2\n");
    assert!(matches!(r, Err(LoadError::Deserialization(_))));
}

fn assert_defaults(c: &Config) {
    assert_eq!(c.access_key_id, "");
    assert_eq!(c.secret_access_key, "");
    assert_eq!(c.host, "qingstor.com");
    assert_eq!(c.port, 0);
    assert_eq!(c.connection_retries, 3);
    assert_eq!(c.additional_user_agent, "");
    assert_eq!(c.log_level, "INFO");
    assert_eq!(c.protocol, Protocol::HTTPS);
}

#[test]
fn load_text_without_content_gives_defaults() {
    assert_defaults(&Config::load_from_str("").unwrap());
    assert_defaults(&Config::load_from_str("# nothing set\n").unwrap());
    assert_defaults(&Config::load_from_str("\n\n").unwrap());
    assert_defaults(&Config::load_from_read(Ok(Vec::new())).unwrap());
}

#[test]
fn load_refuses_an_entry_without_a_value_in_a_text_field() {
    let r = Config::load_from_str("additional_user_agent:\n");
    assert_eq!(deserialization_message(r), "field \"additional_user_agent\" has an invalid value");
    let c = Config::load_from_str("additional_user_agent: \"\"\n").unwrap();
    assert_eq!(c.additional_user_agent, "");
    let r = Config::load_from_str("log_level: true\n");
    assert_eq!(deserialization_message(r), "field \"log_level\" has an invalid value");
}

#[test]
fn load_passes_the_parser_message_on() {
    let bad = "access_key_id: [unclosed\n";
    let expected = serde_yaml::from_str::<serde_yaml::Value>(bad).unwrap_err().to_string();
    assert!(!expected.is_empty());
    assert_ne!(expected, bad);
    assert_eq!(deserialization_message(Config::load_from_str(bad)), expected);
}

#[test]
fn load_rejects_a_document_that_is_not_a_mapping() {
    let r = Config::load_from_str("- a\n- b\n");
    assert_eq!(deserialization_message(r), "the document is not a mapping");
    let r = Config::load_from_str("just text");
    assert_eq!(deserialization_message(r), "the document is not a mapping");
}

#[test]
fn load_rejects_a_port_out_of_range() {
    let r = Config::load_from_str("port: 65536\n");
    assert_eq!(deserialization_message(r), "field \"port\" has an invalid value");
    let r = Config::load_from_str("port: -1\n");
    assert_eq!(deserialization_message(r), "field \"port\" has an invalid value");
    let c = Config::load_from_str("port: 65535\n").unwrap();
    assert_eq!(c.port, 65535);
}

#[test]
fn load_rejects_a_number_for_a_text_field() {
    let r = Config::load_from_str("host: 12\n");
    assert_eq!(deserialization_message(r), "field \"host\" has an invalid value");
    let c = Config::load_from_str("host: \"12\"\n").unwrap();
    assert_eq!(c.host, "12");
}

#[test]
fn load_rejects_text_for_a_number() {
    let r = Config::load_from_str("connection_retries: many\n");
    assert_eq!(deserialization_message(r), "field \"connection_retries\" has an invalid value");
    let r = Config::load_from_str("port: 1.5\n");
    assert_eq!(deserialization_message(r), "field \"port\" has an invalid value");
}

#[test]
fn load_from_read_passes_the_failure_on() {
    match Config::load_from_read(Err("no such file".to_string())) {
        Err(LoadError::Io(msg)) => assert_eq!(msg, "no such file"),
        other => panic!("expected an I/O error, got {:?}", other),
    }
}

#[test]
fn load_from_read_loads_the_bytes() {
    let c = Config::load_from_read(Ok(b"access_key_id: ak\nprotocol: http\n".to_vec())).unwrap();
    assert_eq!(c.access_key_id, "ak");
    assert_eq!(c.protocol, Protocol::HTTP);
    assert_eq!(c.host, "qingstor.com");
    let r = Config::load_from_read(Ok(b"protocol: ftp\n".to_vec()));
    assert_eq!(deserialization_message(r), "field \"protocol\" has an invalid value");
    let r = Config::load_from_read(Ok(b"- a\n".to_vec()));
    assert_eq!(deserialization_message(r), "the document is not a mapping");
}

#[test]
fn load_from_read_agrees_with_load_from_str() {
    let s = "access_key_id: ak\nsecret_access_key: sk\nhost: h\u{e9}te\nport: 81\nprotocol: HTTP\n";
    let a = Config::load_from_str(s).unwrap();
    let b = Config::load_from_read(Ok(s.as_bytes().to_vec())).unwrap();
    assert_eq!(a.access_key_id, b.access_key_id);
    assert_eq!(a.secret_access_key, b.secret_access_key);
    assert_eq!(b.host, "h\u{e9}te");
    assert_eq!(a.host, b.host);
    assert_eq!(b.port, 81);
    assert_eq!(b.protocol, Protocol::HTTP);
}

#[test]
fn load_from_read_fails_on_bytes_that_are_no_text() {
    let r = Config::load_from_read(Ok(b"host: \xc3\x28\n".to_vec()));
    assert!(matches!(r, Err(LoadError::Deserialization(_))));
    let bad: Vec<u8> = b"host: \xc3\x28\n".to_vec();
    let expected = serde_yaml::from_slice::<serde_yaml::Value>(&bad).unwrap_err().to_string();
    assert_eq!(deserialization_message(Config::load_from_read(Ok(bad))), expected);
}

#[test]
fn from_document_without_entries_gives_defaults() {
    let c = Config::from_document(empty_document()).unwrap();
    assert_eq!(c.access_key_id, "");
    assert_eq!(c.secret_access_key, "");
    assert_eq!(c.host, "qingstor.com");
    assert_eq!(c.port, 0);
    assert_eq!(c.connection_retries, 3);
    assert_eq!(c.additional_user_agent, "");
    assert_eq!(c.log_level, "INFO");
    assert_eq!(c.protocol, Protocol::HTTPS);
}

#[test]
fn from_document_takes_each_entry() {
    let d = Document {
        access_key_id: text("ak"),
        secret_access_key: text("sk"),
        host: text("h"),
        port: Some(FieldValue::Integer(81)),
        connection_retries: Some(FieldValue::Integer(7)),
        additional_user_agent: text("ua"),
        log_level: text("WARN"),
        protocol: text("http"),
    };
    let c = Config::from_document(d).unwrap();
    assert_eq!(c.access_key_id, "ak");
    assert_eq!(c.secret_access_key, "sk");
    assert_eq!(c.host, "h");
    assert_eq!(c.port, 81);
    assert_eq!(c.connection_retries, 7);
    assert_eq!(c.additional_user_agent, "ua");
    assert_eq!(c.log_level, "WARN");
    assert_eq!(c.protocol, Protocol::HTTP);
}

#[test]
fn from_document_takes_a_protocol_in_any_case() {
    let mut d = empty_document();
    d.protocol = text("HTTPS");
    assert_eq!(Config::from_document(d).unwrap().protocol, Protocol::HTTPS);
    let mut d = empty_document();
    d.protocol = text("HTTP");
    assert_eq!(Config::from_document(d).unwrap().protocol, Protocol::HTTP);
    let mut d = empty_document();
    d.protocol = text("Https");
    assert_eq!(Config::from_document(d).unwrap().protocol, Protocol::HTTPS);
    let mut d = empty_document();
    d.protocol = text("HTTPX");
    assert_eq!(
        deserialization_message(Config::from_document(d)),
        "field \"protocol\" has an invalid value"
    );
}

#[test]
fn from_document_accepts_an_empty_host() {
    let mut d = empty_document();
    d.host = text("");
    d.access_key_id = text("ak");
    d.secret_access_key = text("sk");
    let mut c = Config::from_document(d).unwrap();
    assert_eq!(c.host, "");
    let err = c.check().unwrap_err();
    assert_eq!(err.message(), "Config error: field \"host\" cannot be empty");
}

#[test]
fn from_document_port_bounds() {
    let mut d = empty_document();
    d.port = Some(FieldValue::Integer(0));
    assert_eq!(Config::from_document(d).unwrap().port, 0);
    let mut d = empty_document();
    d.port = Some(FieldValue::Integer(65535));
    assert_eq!(Config::from_document(d).unwrap().port, 65535);
    let mut d = empty_document();
    d.port = Some(FieldValue::Integer(65536));
    assert_eq!(
        deserialization_message(Config::from_document(d)),
        "field \"port\" has an invalid value"
    );
    let mut d = empty_document();
    d.port = Some(FieldValue::Integer(-1));
    assert_eq!(
        deserialization_message(Config::from_document(d)),
        "field \"port\" has an invalid value"
    );
    let mut d = empty_document();
    d.port = text("80");
    assert_eq!(
        deserialization_message(Config::from_document(d)),
        "field \"port\" has an invalid value"
    );
}

#[test]
fn from_document_retries_bounds() {
    let mut d = empty_document();
    d.connection_retries = Some(FieldValue::Integer(2147483647));
    assert_eq!(Config::from_document(d).unwrap().connection_retries, 2147483647);
    let mut d = empty_document();
    d.connection_retries = Some(FieldValue::Integer(-2147483648));
    assert_eq!(Config::from_document(d).unwrap().connection_retries, -2147483648);
    let mut d = empty_document();
    d.connection_retries = Some(FieldValue::Integer(2147483648));
    assert_eq!(
        deserialization_message(Config::from_document(d)),
        "field \"connection_retries\" has an invalid value"
    );
    let mut d = empty_document();
    d.connection_retries = Some(FieldValue::Other);
    assert_eq!(
        deserialization_message(Config::from_document(d)),
        "field \"connection_retries\" has an invalid value"
    );
}

#[test]
fn from_document_reports_the_first_invalid_entry() {
    let mut d = empty_document();
    d.protocol = text("ftp");
    d.log_level = Some(FieldValue::Integer(3));
    d.secret_access_key = Some(FieldValue::Other);
    assert_eq!(
        deserialization_message(Config::from_document(d)),
        "field \"secret_access_key\" has an invalid value"
    );
    let mut d = empty_document();
    d.protocol = text("ftp");
    d.log_level = Some(FieldValue::Integer(3));
    assert_eq!(
        deserialization_message(Config::from_document(d)),
        "field \"log_level\" has an invalid value"
    );
}

#[test]
fn from_document_rejects_each_text_field_that_is_no_text() {
    let mut d = empty_document();
    d.access_key_id = Some(FieldValue::Integer(1));
    assert_eq!(
        deserialization_message(Config::from_document(d)),
        "field \"access_key_id\" has an invalid value"
    );
    let mut d = empty_document();
    d.host = Some(FieldValue::Other);
    assert_eq!(
        deserialization_message(Config::from_document(d)),
        "field \"host\" has an invalid value"
    );
    let mut d = empty_document();
    d.additional_user_agent = Some(FieldValue::Integer(1));
    assert_eq!(
        deserialization_message(Config::from_document(d)),
        "field \"additional_user_agent\" has an invalid value"
    );
    let mut d = empty_document();
    d.protocol = Some(FieldValue::Integer(443));
    assert_eq!(
        deserialization_message(Config::from_document(d)),
        "field \"protocol\" has an invalid value"
    );
}

#[test]
fn invalid_names_the_field() {
    match LoadError::invalid("port") {
        LoadError::Deserialization(msg) => assert_eq!(msg, "field \"port\" has an invalid value"),
        other => panic!("expected a deserialization error, got {:?}", other),
    }
}
