use raptor_rs::ConversionError;
use raptor_rs::IRI;
use raptor_rs::Literal;
use raptor_rs::Locator;
use raptor_rs::LogLevel;
use raptor_rs::LogMessage;
use raptor_rs::Term;
use raptor_rs::WireLiteral;
use raptor_rs::WireLocator;
use raptor_rs::WireLogMessage;
use raptor_rs::WireStatement;
use raptor_rs::WireTerm;
use raptor_rs::WireUri;
use raptor_rs::raptor_counted_string_to_rust_string;
use raptor_rs::raptor_literal_to_rust_literal;
use raptor_rs::raptor_locator_to_rust_locator;
use raptor_rs::raptor_log_level_to_rust_log_level;
use raptor_rs::raptor_log_message_to_rust_log_message;
use raptor_rs::raptor_statement_to_rust_statement;
use raptor_rs::raptor_string_to_rust_string;
use raptor_rs::raptor_string_to_rust_string_maybe;
use raptor_rs::raptor_term_to_rust_term;
use raptor_rs::raptor_term_to_rust_term_maybe;
use raptor_rs::raptor_uri_to_rust_iri;

fn wire_uri(s: &str) -> WireUri {
    let mut bytes = s.as_bytes().to_vec();
    bytes.push(0);
    WireUri { bytes }
}

#[test]
fn literal_with_language_decodes() {
    // A literal with an explicit language tag ("bonjour"@fr) decodes to
    // exactly its value and language, with no datatype.
    let wire = WireLiteral {
        string: b"bonjour".to_vec(),
        datatype: None,
        language: Some(b"fr".to_vec()),
    };
    let lit = raptor_literal_to_rust_literal(&wire).unwrap();
    assert_eq!(
        lit,
        Literal {
            value: "bonjour".to_string(),
            datatype: None,
            lang: Some("fr".to_string()),
        }
    );
}

#[test]
fn uri_decodes_byte_for_byte() {
    let wire = WireTerm::Uri(wire_uri("http://x/"));
    let term = raptor_term_to_rust_term(&wire).unwrap();
    assert_eq!(term, Term::URI(IRI("http://x/".to_string())));
}

#[test]
fn blank_label_decodes() {
    let wire = WireTerm::Blank(b"genid1".to_vec());
    let term = raptor_term_to_rust_term(&wire).unwrap();
    assert_eq!(term, Term::Blank("genid1".to_string()));
}

#[test]
fn unknown_term_tag_fails() {
    let r = raptor_term_to_rust_term(&WireTerm::Unknown);
    assert_eq!(r, Err(ConversionError::UnknownTermType));
}

#[test]
fn invalid_utf8_fails() {
    let r = raptor_counted_string_to_rust_string(&[0xff, 0xfe]);
    assert_eq!(r, Err(ConversionError::InvalidUtf8));
}

#[test]
fn missing_terminator_fails() {
    let r = raptor_string_to_rust_string(b"abc");
    assert_eq!(r, Err(ConversionError::MissingTerminator));
}

#[test]
fn nul_terminated_stops_at_terminator() {
    // Bytes past the first terminator are not part of the value.
    let r = raptor_string_to_rust_string(b"ab\0cd").unwrap();
    assert_eq!(r, "ab");
}

#[test]
fn counted_string_takes_whole_buffer() {
    // The explicit-length convention never scans: the whole buffer is the
    // value, embedded nul included.
    let r = raptor_counted_string_to_rust_string(b"a\0b").unwrap();
    assert_eq!(r, "a\0b");
}

#[test]
fn absent_string_is_none() {
    let r = raptor_string_to_rust_string_maybe(&None).unwrap();
    assert_eq!(r, None);
    let r = raptor_string_to_rust_string_maybe(&Some(b"f.rdf\0".to_vec())).unwrap();
    assert_eq!(r, Some("f.rdf".to_string()));
}

#[test]
fn log_levels_decode() {
    assert_eq!(raptor_log_level_to_rust_log_level(0), Ok(LogLevel::NoLevel));
    assert_eq!(raptor_log_level_to_rust_log_level(1), Ok(LogLevel::Trace));
    assert_eq!(raptor_log_level_to_rust_log_level(2), Ok(LogLevel::Debug));
    assert_eq!(raptor_log_level_to_rust_log_level(3), Ok(LogLevel::Info));
    assert_eq!(raptor_log_level_to_rust_log_level(4), Ok(LogLevel::Warn));
    assert_eq!(raptor_log_level_to_rust_log_level(5), Ok(LogLevel::Error));
    assert_eq!(raptor_log_level_to_rust_log_level(6), Ok(LogLevel::Fatal));
    assert_eq!(
        raptor_log_level_to_rust_log_level(7),
        Err(ConversionError::UnknownLogLevel)
    );
    assert_eq!(
        raptor_log_level_to_rust_log_level(-1),
        Err(ConversionError::UnknownLogLevel)
    );
}

#[test]
fn log_levels_are_ordered() {
    let levels = [
        LogLevel::NoLevel,
        LogLevel::Trace,
        LogLevel::Debug,
        LogLevel::Info,
        LogLevel::Warn,
        LogLevel::Error,
        LogLevel::Fatal,
    ];
    for w in levels.windows(2) {
        assert!(w[0].severity() < w[1].severity());
    }
}

#[test]
fn log_message_decodes() {
    let wire = WireLogMessage {
        text: b"Element inside a literal\0".to_vec(),
        level: 5,
    };
    let msg = raptor_log_message_to_rust_log_message(&wire).unwrap();
    assert_eq!(
        msg,
        LogMessage {
            text: "Element inside a literal".to_string(),
            level: LogLevel::Error,
        }
    );
}

#[test]
fn log_message_unknown_level_fails() {
    let wire = WireLogMessage {
        text: b"x\0".to_vec(),
        level: 42,
    };
    let r = raptor_log_message_to_rust_log_message(&wire);
    assert_eq!(r, Err(ConversionError::UnknownLogLevel));
}

#[test]
fn locator_sentinels_become_none() {
    let wire = WireLocator {
        uri: None,
        file: Some(b"about.rdf\0".to_vec()),
        line: 3,
        column: -1,
        byte: -1,
    };
    let loc = raptor_locator_to_rust_locator(&wire).unwrap();
    assert_eq!(
        loc,
        Locator {
            iri: None,
            file: Some("about.rdf".to_string()),
            line: Some(3),
            column: None,
            byte: None,
        }
    );
}

#[test]
fn locator_with_uri_decodes() {
    let wire = WireLocator {
        uri: Some(wire_uri("http://www.example.com")),
        file: None,
        line: -1,
        column: -1,
        byte: 17,
    };
    let loc = raptor_locator_to_rust_locator(&wire).unwrap();
    assert_eq!(loc.iri, Some(IRI("http://www.example.com".to_string())));
    assert_eq!(loc.file, None);
    assert_eq!(loc.line, None);
    assert_eq!(loc.byte, Some(17));
}

#[test]
fn statement_decodes_whole_triple() {
    // The wire form of the one statement a document like
    // <rdf:Description rdf:about="http://x/"><dc:title>T</dc:title></...>
    // makes the engine emit: subject and predicate URIs and a plain
    // literal object, no graph.
    let wire = WireStatement {
        subject: WireTerm::Uri(wire_uri("http://x/")),
        predicate: WireTerm::Uri(wire_uri("http://purl.org/dc/elements/1.1/title")),
        object: WireTerm::Literal(WireLiteral {
            string: b"T".to_vec(),
            datatype: None,
            language: None,
        }),
        graph: None,
    };
    let st = raptor_statement_to_rust_statement(&wire).unwrap();
    assert_eq!(st.subject, Term::URI(IRI("http://x/".to_string())));
    assert_eq!(
        st.predicate,
        Term::URI(IRI("http://purl.org/dc/elements/1.1/title".to_string()))
    );
    assert_eq!(
        st.object,
        Term::Literal(Literal {
            value: "T".to_string(),
            datatype: None,
            lang: None,
        })
    );
    assert_eq!(st.graph, None);
}

#[test]
fn statement_first_bad_term_decides_error() {
    let wire = WireStatement {
        subject: WireTerm::Unknown,
        predicate: WireTerm::Uri(WireUri { bytes: b"no terminator".to_vec() }),
        object: WireTerm::Uri(wire_uri("http://x/")),
        graph: None,
    };
    let r = raptor_statement_to_rust_statement(&wire);
    assert_eq!(r, Err(ConversionError::UnknownTermType));
}

#[test]
fn graph_term_absent_is_none() {
    assert_eq!(raptor_term_to_rust_term_maybe(&None), Ok(None));
}

#[test]
fn literal_with_datatype_decodes() {
    let wire = WireLiteral {
        string: b"4".to_vec(),
        datatype: Some(wire_uri("http://www.w3.org/2001/XMLSchema#integer")),
        language: None,
    };
    let lit = raptor_literal_to_rust_literal(&wire).unwrap();
    assert_eq!(lit.value, "4");
    assert_eq!(
        lit.datatype,
        Some(IRI("http://www.w3.org/2001/XMLSchema#integer".to_string()))
    );
    assert_eq!(lit.lang, None);
}

#[test]
fn conversion_error_messages() {
    assert_eq!(
        ConversionError::InvalidUtf8.message(),
        "invalid UTF-8 in a native string"
    );
    assert_eq!(
        ConversionError::UnknownTermType.message(),
        "unknown native term type"
    );
    assert_eq!(
        ConversionError::UnknownLogLevel.message(),
        "unknown native log level"
    );
    assert_eq!(
        ConversionError::MissingTerminator.message(),
        "native string lacks its terminator"
    );
}

#[test]
fn uri_conversion_keeps_exact_string() {
    let iri = raptor_uri_to_rust_iri(&wire_uri("http://a/b?c=d#e")).unwrap();
    assert_eq!(iri, IRI("http://a/b?c=d#e".to_string()));
}
