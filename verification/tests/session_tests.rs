use raptor_rs::ConstructionError;
use raptor_rs::ConversionError;
use raptor_rs::EmptyParserHandler;
use raptor_rs::LogMessage;
use raptor_rs::MemoryParserHandler;
use raptor_rs::Parser;
use raptor_rs::ParserHandler;
use raptor_rs::Statement;
use raptor_rs::Term;
use raptor_rs::WireLiteral;
use raptor_rs::WireLogMessage;
use raptor_rs::WireStatement;
use raptor_rs::WireTerm;
use raptor_rs::WireUri;

fn wire_uri(s: &str) -> WireUri {
    let mut bytes = s.as_bytes().to_vec();
    bytes.push(0);
    WireUri { bytes }
}

fn wire_statement(subject: &str, predicate: &str, object: &str) -> WireStatement {
    WireStatement {
        subject: WireTerm::Uri(wire_uri(subject)),
        predicate: WireTerm::Uri(wire_uri(predicate)),
        object: WireTerm::Literal(WireLiteral {
            string: object.as_bytes().to_vec(),
            datatype: None,
            language: None,
        }),
        graph: None,
    }
}

fn wire_log(text: &str, level: i32) -> WireLogMessage {
    let mut bytes = text.as_bytes().to_vec();
    bytes.push(0);
    WireLogMessage { text: bytes, level }
}

#[test]
fn lib_new_parser() {
    let e = EmptyParserHandler::default();
    let _p = Parser::new("rdfxml", "http://www.example.com", e);
}

#[test]
fn lib_test_eph() {
    let _e = EmptyParserHandler::default();
}

#[test]
fn push_new_parser() {
    let e = EmptyParserHandler::default();
    let _p = Parser::new("rdfxml", "http://www.example.com", e);
}

#[test]
fn push_test_eph() {
    let _e = EmptyParserHandler::default();
}

#[test]
fn lib_test_convert_uri() {
    let rust_uri = raptor_rs::raptor_uri_to_rust_iri(&wire_uri("http://www.example.com")).unwrap();
    assert_eq!(rust_uri.0, "http://www.example.com");
}

#[test]
fn push_test_convert_uri() {
    let rust_uri = raptor_rs::raptor_uri_to_rust_iri(&wire_uri("http://www.example.com")).unwrap();
    assert_eq!(rust_uri.0, "http://www.example.com");
}

#[test]
fn construction_rejects_embedded_nul() {
    let e = EmptyParserHandler::default();
    assert_eq!(
        Parser::new("rdf\0xml", "http://www.example.com", e).err(),
        Some(ConstructionError::EmbeddedNul)
    );
    let e = EmptyParserHandler::default();
    assert_eq!(
        Parser::new("rdfxml", "http://www.example.com\0", e).err(),
        Some(ConstructionError::EmbeddedNul)
    );
}

#[test]
fn complete_without_events_is_ok() {
    let m = MemoryParserHandler::new();
    let mut p = Parser::new("rdfxml", "http://www.example.com", m).unwrap();
    assert_eq!(p.parse_complete(), Ok(()));
    assert_eq!(p.handler().0.len(), 0);
}

#[test]
fn memory_handler_keeps_event_order() {
    let m = MemoryParserHandler::new();
    let mut p = Parser::new("rdfxml", "http://www.example.com", m).unwrap();
    p.parse_chunk("<rdf:RDF");

    p.deliver_statement(&wire_statement("http://x/a", "http://x/p", "one"))
        .unwrap();
    p.deliver_log_message(&wire_log("a warning", 4)).unwrap();
    p.deliver_statement(&wire_statement("http://x/b", "http://x/p", "two"))
        .unwrap();

    assert_eq!(p.parse_complete(), Ok(()));
    let events = p.into_handler().0;
    assert_eq!(events.len(), 3);
    assert!(matches!(&events[0], Ok(Statement { subject: Term::URI(s), .. }) if s.0 == "http://x/a"));
    assert!(matches!(&events[1], Err(LogMessage { text, .. }) if text == "a warning"));
    assert!(matches!(&events[2], Ok(Statement { subject: Term::URI(s), .. }) if s.0 == "http://x/b"));
}

#[test]
fn conversion_failure_is_returned_and_surfaced() {
    let m = MemoryParserHandler::new();
    let mut p = Parser::new("rdfxml", "http://www.example.com", m).unwrap();
    let bad = WireStatement {
        subject: WireTerm::Unknown,
        predicate: WireTerm::Uri(wire_uri("http://x/p")),
        object: WireTerm::Uri(wire_uri("http://x/o")),
        graph: None,
    };
    assert_eq!(
        p.deliver_statement(&bad),
        Err(ConversionError::UnknownTermType)
    );
    // Nothing was delivered, and complete() reports the absorbed failure.
    assert_eq!(p.handler().0.len(), 0);
    assert_eq!(
        p.parse_complete(),
        Err("unknown native term type".to_string())
    );
}

#[derive(Debug)]
struct FailingHandler;

impl ParserHandler for FailingHandler {
    fn handle_statement(&mut self, _statement: Statement) -> Result<(), String> {
        Err("handler refused a statement".to_string())
    }

    fn handle_error(&mut self, _message: LogMessage) -> Result<(), String> {
        Ok(())
    }
}

#[test]
fn first_handler_error_surfaces_at_complete() {
    let mut p = Parser::new("rdfxml", "http://www.example.com", FailingHandler).unwrap();
    // The bridge absorbs the handler's failure: delivery itself succeeds.
    assert_eq!(
        p.deliver_statement(&wire_statement("http://x/a", "http://x/p", "one")),
        Ok(())
    );
    assert_eq!(
        p.deliver_statement(&wire_statement("http://x/b", "http://x/p", "two")),
        Ok(())
    );
    // complete() surfaces the first absorbed error, and completing again
    // reports the same outcome.
    assert_eq!(
        p.parse_complete(),
        Err("handler refused a statement".to_string())
    );
    assert_eq!(
        p.parse_complete(),
        Err("handler refused a statement".to_string())
    );
}

#[test]
fn resource_safety_many_sessions() {
    // Constructing and destroying many sessions in sequence, no overlap.
    for i in 0..10_000 {
        let m = MemoryParserHandler::new();
        let mut p = Parser::new("rdfxml", "http://www.example.com", m).unwrap();
        if i % 2 == 0 {
            p.parse_chunk("<rdf:RDF");
        }
        drop(p);
    }
}

#[test]
fn chunking_granularity_is_invisible_to_the_session() {
    // The proved invariance law says the fed stream depends only on the
    // concatenation of the chunks; here the two sessions walk the same
    // document in one chunk and one byte at a time.
    let doc = "<rdf:RDF xmlns:rdf=\"http://www.w3.org/1999/02/22-rdf-syntax-ns#\"></rdf:RDF>";

    let mut whole = Parser::new("rdfxml", "http://www.example.com", MemoryParserHandler::new())
        .unwrap();
    whole.parse_chunk(doc);

    let mut byte_wise = Parser::new("rdfxml", "http://www.example.com", MemoryParserHandler::new())
        .unwrap();
    for i in 0..doc.len() {
        byte_wise.parse_chunk(&doc[i..i + 1]);
    }

    assert_eq!(whole.is_completed(), byte_wise.is_completed());
    assert_eq!(whole.parse_complete(), byte_wise.parse_complete());
    assert_eq!(whole.handler().0.len(), byte_wise.handler().0.len());
}

#[test]
fn feeding_after_complete_changes_nothing_observable() {
    let m = MemoryParserHandler::new();
    let mut p = Parser::new("rdfxml", "http://www.example.com", m).unwrap();
    assert_eq!(p.parse_complete(), Ok(()));
    // A completed session accepts nothing more; feeding it is a no-op.
    p.parse_chunk("<rdf:RDF");
    assert_eq!(p.parse_complete(), Ok(()));
    assert_eq!(p.handler().0.len(), 0);
}
