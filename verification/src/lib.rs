//! A safe streaming interface over a foreign, synchronous RDF/XML parsing
//! engine.
//!
//! The library accepts RDF source text as an arbitrary sequence of chunks,
//! tracks the parse session's state machine, and converts every
//! engine-emitted event (parsed statement, log message) into safe, owned
//! values delivered to a caller-supplied [`ParserHandler`].
//!
//! The foreign engine itself is reached only through an unsafe native call
//! surface and lives outside this crate; what stands here is everything
//! that can be stated and proved about the adapter: the term model, the
//! conversion of the engine's wire representations, the handler
//! abstraction, and the chunk-feed session state machine.

mod convert;
mod handler;
mod model;
mod session;
mod wire;

pub use model::IRI;
pub use model::Literal;
pub use model::LiteralV;
pub use model::Locator;
pub use model::LocatorV;
pub use model::LogLevel;
pub use model::LogMessage;
pub use model::LogMessageV;
pub use model::Statement;
pub use model::StatementV;
pub use model::Term;
pub use model::TermV;

pub use wire::WireLiteral;
pub use wire::WireLocator;
pub use wire::WireLogMessage;
pub use wire::WireStatement;
pub use wire::WireTerm;
pub use wire::WireUri;

pub use convert::ConversionError;
pub use convert::conversion_result;
pub use convert::conversion_result_opt;
pub use convert::first_nul;
pub use convert::lemma_first_nul_at;
pub use convert::lemma_first_nul_none;
pub use convert::raptor_counted_string_to_rust_string;
pub use convert::raptor_literal_to_rust_literal;
pub use convert::raptor_locator_to_rust_locator;
pub use convert::raptor_log_level_to_rust_log_level;
pub use convert::raptor_log_message_to_rust_log_message;
pub use convert::raptor_statement_to_rust_statement;
pub use convert::raptor_string_to_rust_string;
pub use convert::raptor_string_to_rust_string_maybe;
pub use convert::raptor_term_to_rust_term;
pub use convert::raptor_term_to_rust_term_maybe;
pub use convert::raptor_uri_to_rust_iri;
pub use convert::spec_decode_exact_length;
pub use convert::spec_decode_nul_terminated;
pub use convert::spec_literal;
pub use convert::spec_locator;
pub use convert::spec_log_level;
pub use convert::spec_log_message;
pub use convert::spec_opt_exact_length;
pub use convert::spec_opt_nul_terminated;
pub use convert::spec_opt_uri;
pub use convert::spec_statement;
pub use convert::spec_term;
pub use convert::spec_term_maybe;
pub use convert::spec_uri;

pub use handler::EmptyParserHandler;
pub use handler::MemoryParserHandler;
pub use handler::ParserHandler;

pub use session::ConstructionError;
pub use session::Parser;
pub use session::SessionV;
pub use session::contains_nul;
pub use session::fresh_session;
pub use session::lemma_chunk_size_invariance;
pub use session::lemma_feed_all_fed;
pub use session::spec_complete;
pub use session::spec_feed;
pub use session::spec_feed_all;
