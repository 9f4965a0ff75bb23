//! The event conversion layer: pure, total functions from the engine's
//! wire representations (`wire`) to the owned data model (`model`).
//!
//! Every function's contract ties its result to a spec-level decoding
//! (`spec_term`, `spec_statement`, ...), so a caller knows exactly which
//! value comes back on every input.  Malformed UTF-8, a missing string
//! terminator, an unknown term tag or an unknown log level are never
//! swallowed or defaulted: they surface as a [`ConversionError`],
//! consistently across the whole layer.

use vstd::prelude::*;
use vstd::utf8::decode_utf8;
use vstd::utf8::valid_utf8;

use crate::model::IRI;
use crate::model::Literal;
use crate::model::LiteralV;
use crate::model::Locator;
use crate::model::LocatorV;
use crate::model::LogLevel;
use crate::model::LogMessage;
use crate::model::LogMessageV;
use crate::model::Statement;
use crate::model::StatementV;
use crate::model::Term;
use crate::model::TermV;
use crate::wire::WireLiteral;
use crate::wire::WireLocator;
use crate::wire::WireLogMessage;
use crate::wire::WireStatement;
use crate::wire::WireTerm;
use crate::wire::WireUri;

verus! {

/// Why a native value could not be converted to a model value.
#[derive(Clone, Copy, Debug, PartialEq, Eq, Structural)]
pub enum ConversionError {
    /// A native string buffer did not hold valid UTF-8.
    InvalidUtf8,
    /// A native term carried the "unknown" tag (or an unrecognized one).
    UnknownTermType,
    /// A native log level was outside the documented range.
    UnknownLogLevel,
    /// A nul-terminated buffer held no terminator.
    MissingTerminator,
}

impl ConversionError {
    /// What this error means, in words.
    pub open spec fn message_spec(self) -> Seq<char> {
        match self {
            ConversionError::InvalidUtf8 => "invalid UTF-8 in a native string"@,
            ConversionError::UnknownTermType => "unknown native term type"@,
            ConversionError::UnknownLogLevel => "unknown native log level"@,
            ConversionError::MissingTerminator => "native string lacks its terminator"@,
        }
    }

    /// What this error means, in words.
    pub fn message(&self) -> (r: String)
        ensures
            r@ == self.message_spec(),
    {
        match self {
            ConversionError::InvalidUtf8 => "invalid UTF-8 in a native string".to_owned(),
            ConversionError::UnknownTermType => "unknown native term type".to_owned(),
            ConversionError::UnknownLogLevel => "unknown native log level".to_owned(),
            ConversionError::MissingTerminator => "native string lacks its terminator".to_owned(),
        }
    }
}

/// The view of a conversion result: the converted value's view, or the
/// error unchanged.
pub open spec fn conversion_result<T: View>(r: Result<T, ConversionError>) -> Result<
    T::V,
    ConversionError,
> {
    match r {
        Result::Ok(v) => Result::Ok(v@),
        Result::Err(e) => Result::Err(e),
    }
}

/// The view of an optional conversion result.
pub open spec fn conversion_result_opt<T: View>(r: Result<Option<T>, ConversionError>) -> Result<
    Option<T::V>,
    ConversionError,
> {
    match r {
        Result::Ok(Option::Some(v)) => Result::Ok(Option::Some(v@)),
        Result::Ok(Option::None) => Result::Ok(Option::None),
        Result::Err(e) => Result::Err(e),
    }
}

/// Position of the first nul byte, if any.
pub open spec fn first_nul(bytes: Seq<u8>) -> Option<int>
    decreases bytes.len(),
{
    if bytes.len() == 0 {
        Option::None
    } else if bytes[0] == 0 {
        Option::Some(0)
    } else {
        match first_nul(bytes.drop_first()) {
            Option::Some(i) => Option::Some(i + 1),
            Option::None => Option::None,
        }
    }
}

/// `first_nul` finds exactly the position whose byte is nul and whose
/// predecessors are all non-nul.
pub proof fn lemma_first_nul_at(bytes: Seq<u8>, i: int)
    requires
        0 <= i < bytes.len(),
        bytes[i] == 0,
        forall|j: int| 0 <= j < i ==> bytes[j] != 0,
    ensures
        first_nul(bytes) == Option::Some(i),
    decreases i,
{
    if i > 0 {
        lemma_first_nul_at(bytes.drop_first(), i - 1);
    }
}

/// A buffer without a nul byte has no first nul.
pub proof fn lemma_first_nul_none(bytes: Seq<u8>)
    requires
        forall|j: int| 0 <= j < bytes.len() ==> bytes[j] != 0,
    ensures
        first_nul(bytes) is None,
    decreases bytes.len(),
{
    if bytes.len() > 0 {
        lemma_first_nul_none(bytes.drop_first());
    }
}

/// Decoding of an explicit-length buffer: the whole buffer is the value;
/// UTF-8 validate it, never scan it.
pub open spec fn spec_decode_exact_length(bytes: Seq<u8>) -> Result<Seq<char>, ConversionError> {
    if valid_utf8(bytes) {
        Result::Ok(decode_utf8(bytes))
    } else {
        Result::Err(ConversionError::InvalidUtf8)
    }
}

/// Decoding of a nul-terminated buffer: the value is what stands before
/// the first terminator; a buffer without one is malformed.
pub open spec fn spec_decode_nul_terminated(bytes: Seq<u8>) -> Result<Seq<char>, ConversionError> {
    match first_nul(bytes) {
        Option::Some(i) => spec_decode_exact_length(bytes.take(i)),
        Option::None => Result::Err(ConversionError::MissingTerminator),
    }
}

/// Relies on std's `String::from_utf8`: it returns `Ok` exactly when the
/// bytes are valid UTF-8, and the returned string is their decoding.
#[verifier::external_body]
fn utf8_to_string(bytes: Vec<u8>) -> (r: Option<String>)
    ensures
        r is Some <==> valid_utf8(bytes@),
        r matches Some(s) ==> s@ == decode_utf8(bytes@),
{
    String::from_utf8(bytes).ok()
}

/// Decode a native string of the explicit-length convention: the whole
/// buffer is the value.
pub fn raptor_counted_string_to_rust_string(bytes: &[u8]) -> (r: Result<String, ConversionError>)
    ensures
        conversion_result(r) == spec_decode_exact_length(bytes@),
{
    let mut copy: Vec<u8> = Vec::new();
    copy.extend_from_slice(bytes);
    proof {
        assert(copy@ =~= bytes@);
    }
    match utf8_to_string(copy) {
        Option::Some(s) => Result::Ok(s),
        Option::None => Result::Err(ConversionError::InvalidUtf8),
    }
}

/// Decode a native string of the nul-terminated convention: scan for the
/// terminator, then decode what stands before it.
pub fn raptor_string_to_rust_string(bytes: &[u8]) -> (r: Result<String, ConversionError>)
    ensures
        conversion_result(r) == spec_decode_nul_terminated(bytes@),
{
    let n = bytes.len();
    let mut i: usize = 0;
    while i < n && bytes[i] != 0
        invariant
            i <= n == bytes@.len(),
            forall|j: int| 0 <= j < i ==> bytes@[j] != 0,
        decreases n - i,
    {
        i = i + 1;
    }
    if i == n {
        proof {
            lemma_first_nul_none(bytes@);
        }
        Result::Err(ConversionError::MissingTerminator)
    } else {
        proof {
            lemma_first_nul_at(bytes@, i as int);
        }
        let mut prefix: Vec<u8> = Vec::new();
        prefix.extend_from_slice(&bytes[0..i]);
        proof {
            assert(prefix@ =~= bytes@.take(i as int));
        }
        match utf8_to_string(prefix) {
            Option::Some(s) => Result::Ok(s),
            Option::None => Result::Err(ConversionError::InvalidUtf8),
        }
    }
}

/// Spec-level decoding of an optional nul-terminated buffer (a null
/// pointer decodes to `None`).
pub open spec fn spec_opt_nul_terminated(bytes: Option<Vec<u8>>) -> Result<
    Option<Seq<char>>,
    ConversionError,
> {
    match bytes {
        Option::Some(b) => match spec_decode_nul_terminated(b@) {
            Result::Ok(s) => Result::Ok(Option::Some(s)),
            Result::Err(e) => Result::Err(e),
        },
        Option::None => Result::Ok(Option::None),
    }
}

/// Decode an optional nul-terminated native string; an absent buffer (a
/// null pointer on the wire) is `None`, not an error.
pub fn raptor_string_to_rust_string_maybe(bytes: &Option<Vec<u8>>) -> (r: Result<
    Option<String>,
    ConversionError,
>)
    ensures
        conversion_result_opt(r) == spec_opt_nul_terminated(*bytes),
{
    match bytes {
        Option::Some(b) => match raptor_string_to_rust_string(b.as_slice()) {
            Result::Ok(s) => Result::Ok(Option::Some(s)),
            Result::Err(e) => Result::Err(e),
        },
        Option::None => Result::Ok(Option::None),
    }
}

/// Spec-level decoding of a native URI.
pub open spec fn spec_uri(u: WireUri) -> Result<Seq<char>, ConversionError> {
    spec_decode_nul_terminated(u.bytes@)
}

/// Convert a native URI to an owned [`IRI`].
pub fn raptor_uri_to_rust_iri(uri: &WireUri) -> (r: Result<IRI, ConversionError>)
    ensures
        conversion_result(r) == spec_uri(*uri),
{
    match raptor_string_to_rust_string(uri.bytes.as_slice()) {
        Result::Ok(s) => Result::Ok(IRI(s)),
        Result::Err(e) => Result::Err(e),
    }
}

/// Spec-level decoding of an optional native URI.
pub open spec fn spec_opt_uri(u: Option<WireUri>) -> Result<Option<Seq<char>>, ConversionError> {
    match u {
        Option::Some(uri) => match spec_uri(uri) {
            Result::Ok(s) => Result::Ok(Option::Some(s)),
            Result::Err(e) => Result::Err(e),
        },
        Option::None => Result::Ok(Option::None),
    }
}

fn raptor_uri_to_rust_iri_maybe(uri: &Option<WireUri>) -> (r: Result<Option<IRI>, ConversionError>)
    ensures
        conversion_result_opt(r) == spec_opt_uri(*uri),
{
    match uri {
        Option::Some(u) => match raptor_uri_to_rust_iri(u) {
            Result::Ok(iri) => Result::Ok(Option::Some(iri)),
            Result::Err(e) => Result::Err(e),
        },
        Option::None => Result::Ok(Option::None),
    }
}

/// Spec-level decoding of an optional explicit-length buffer.
pub open spec fn spec_opt_exact_length(bytes: Option<Vec<u8>>) -> Result<
    Option<Seq<char>>,
    ConversionError,
> {
    match bytes {
        Option::Some(b) => match spec_decode_exact_length(b@) {
            Result::Ok(s) => Result::Ok(Option::Some(s)),
            Result::Err(e) => Result::Err(e),
        },
        Option::None => Result::Ok(Option::None),
    }
}

/// Spec-level decoding of a native literal: value first, then datatype,
/// then language; the first malformed field decides the error.
pub open spec fn spec_literal(l: WireLiteral) -> Result<LiteralV, ConversionError> {
    match spec_decode_exact_length(l.string@) {
        Result::Err(e) => Result::Err(e),
        Result::Ok(value) => match spec_opt_uri(l.datatype) {
            Result::Err(e) => Result::Err(e),
            Result::Ok(datatype) => match spec_opt_exact_length(l.language) {
                Result::Err(e) => Result::Err(e),
                Result::Ok(lang) => Result::Ok(LiteralV { value, datatype, lang }),
            },
        },
    }
}

/// Convert a native literal: an explicit-length value buffer, an optional
/// datatype URI and an optional explicit-length language tag.
pub fn raptor_literal_to_rust_literal(literal: &WireLiteral) -> (r: Result<
    Literal,
    ConversionError,
>)
    ensures
        conversion_result(r) == spec_literal(*literal),
{
    let value = match raptor_counted_string_to_rust_string(literal.string.as_slice()) {
        Result::Ok(s) => s,
        Result::Err(e) => {
            return Result::Err(e);
        },
    };
    let datatype = match raptor_uri_to_rust_iri_maybe(&literal.datatype) {
        Result::Ok(d) => d,
        Result::Err(e) => {
            return Result::Err(e);
        },
    };
    let lang = match &literal.language {
        Option::Some(b) => match raptor_counted_string_to_rust_string(b.as_slice()) {
            Result::Ok(s) => Option::Some(s),
            Result::Err(e) => {
                return Result::Err(e);
            },
        },
        Option::None => Option::None,
    };
    Result::Ok(Literal { value, datatype, lang })
}

/// Spec-level decoding of a native term: dispatch on the tag; the
/// "unknown" tag never decodes.
pub open spec fn spec_term(t: WireTerm) -> Result<TermV, ConversionError> {
    match t {
        WireTerm::Unknown => Result::Err(ConversionError::UnknownTermType),
        WireTerm::Uri(u) => match spec_uri(u) {
            Result::Ok(s) => Result::Ok(TermV::URI(s)),
            Result::Err(e) => Result::Err(e),
        },
        WireTerm::Literal(l) => match spec_literal(l) {
            Result::Ok(lit) => Result::Ok(TermV::Literal(lit)),
            Result::Err(e) => Result::Err(e),
        },
        WireTerm::Blank(b) => match spec_decode_exact_length(b@) {
            Result::Ok(s) => Result::Ok(TermV::Blank(s)),
            Result::Err(e) => Result::Err(e),
        },
    }
}

/// Convert a native term by its tag: a URI, a literal, or a blank node
/// label (an explicit-length buffer).  The "unknown" tag is a conversion
/// failure, never a silent default.
pub fn raptor_term_to_rust_term(term: &WireTerm) -> (r: Result<Term, ConversionError>)
    ensures
        conversion_result(r) == spec_term(*term),
{
    match term {
        WireTerm::Unknown => Result::Err(ConversionError::UnknownTermType),
        WireTerm::Uri(u) => match raptor_uri_to_rust_iri(u) {
            Result::Ok(iri) => Result::Ok(Term::URI(iri)),
            Result::Err(e) => Result::Err(e),
        },
        WireTerm::Literal(l) => match raptor_literal_to_rust_literal(l) {
            Result::Ok(lit) => Result::Ok(Term::Literal(lit)),
            Result::Err(e) => Result::Err(e),
        },
        WireTerm::Blank(b) => match raptor_counted_string_to_rust_string(b.as_slice()) {
            Result::Ok(s) => Result::Ok(Term::Blank(s)),
            Result::Err(e) => Result::Err(e),
        },
    }
}

/// Spec-level decoding of an optional native term.
pub open spec fn spec_term_maybe(t: Option<WireTerm>) -> Result<Option<TermV>, ConversionError> {
    match t {
        Option::Some(term) => match spec_term(term) {
            Result::Ok(tv) => Result::Ok(Option::Some(tv)),
            Result::Err(e) => Result::Err(e),
        },
        Option::None => Result::Ok(Option::None),
    }
}

/// Convert an optional native term; an absent term (a null pointer on the
/// wire) is `None`, not an error.
pub fn raptor_term_to_rust_term_maybe(term: &Option<WireTerm>) -> (r: Result<
    Option<Term>,
    ConversionError,
>)
    ensures
        conversion_result_opt(r) == spec_term_maybe(*term),
{
    match term {
        Option::Some(t) => match raptor_term_to_rust_term(t) {
            Result::Ok(tm) => Result::Ok(Option::Some(tm)),
            Result::Err(e) => Result::Err(e),
        },
        Option::None => Result::Ok(Option::None),
    }
}

/// Spec-level decoding of a native statement: subject, predicate, object,
/// then graph; the first malformed term decides the error.
pub open spec fn spec_statement(s: WireStatement) -> Result<StatementV, ConversionError> {
    match spec_term(s.subject) {
        Result::Err(e) => Result::Err(e),
        Result::Ok(subject) => match spec_term(s.predicate) {
            Result::Err(e) => Result::Err(e),
            Result::Ok(predicate) => match spec_term(s.object) {
                Result::Err(e) => Result::Err(e),
                Result::Ok(object) => match spec_term_maybe(s.graph) {
                    Result::Err(e) => Result::Err(e),
                    Result::Ok(graph) => Result::Ok(
                        StatementV { subject, predicate, object, graph },
                    ),
                },
            },
        },
    }
}

/// Convert a native statement to an owned [`Statement`].
pub fn raptor_statement_to_rust_statement(statement: &WireStatement) -> (r: Result<
    Statement,
    ConversionError,
>)
    ensures
        conversion_result(r) == spec_statement(*statement),
{
    let subject = match raptor_term_to_rust_term(&statement.subject) {
        Result::Ok(t) => t,
        Result::Err(e) => {
            return Result::Err(e);
        },
    };
    let predicate = match raptor_term_to_rust_term(&statement.predicate) {
        Result::Ok(t) => t,
        Result::Err(e) => {
            return Result::Err(e);
        },
    };
    let object = match raptor_term_to_rust_term(&statement.object) {
        Result::Ok(t) => t,
        Result::Err(e) => {
            return Result::Err(e);
        },
    };
    let graph = match raptor_term_to_rust_term_maybe(&statement.graph) {
        Result::Ok(g) => g,
        Result::Err(e) => {
            return Result::Err(e);
        },
    };
    Result::Ok(Statement { subject, predicate, object, graph })
}

/// Spec-level decoding of a native log level: the engine documents the
/// levels 0 through 6; anything else never decodes.
pub open spec fn spec_log_level(raw: i32) -> Result<LogLevel, ConversionError> {
    if raw == 0 {
        Result::Ok(LogLevel::NoLevel)
    } else if raw == 1 {
        Result::Ok(LogLevel::Trace)
    } else if raw == 2 {
        Result::Ok(LogLevel::Debug)
    } else if raw == 3 {
        Result::Ok(LogLevel::Info)
    } else if raw == 4 {
        Result::Ok(LogLevel::Warn)
    } else if raw == 5 {
        Result::Ok(LogLevel::Error)
    } else {
        if raw == 6 {
            Result::Ok(LogLevel::Fatal)
        } else {
            Result::Err(ConversionError::UnknownLogLevel)
        }
    }
}

/// Convert a raw native log level to a [`LogLevel`].
pub fn raptor_log_level_to_rust_log_level(raw: i32) -> (r: Result<LogLevel, ConversionError>)
    ensures
        r == spec_log_level(raw),
{
    if raw == 0 {
        Result::Ok(LogLevel::NoLevel)
    } else if raw == 1 {
        Result::Ok(LogLevel::Trace)
    } else if raw == 2 {
        Result::Ok(LogLevel::Debug)
    } else if raw == 3 {
        Result::Ok(LogLevel::Info)
    } else if raw == 4 {
        Result::Ok(LogLevel::Warn)
    } else if raw == 5 {
        Result::Ok(LogLevel::Error)
    } else if raw == 6 {
        Result::Ok(LogLevel::Fatal)
    } else {
        Result::Err(ConversionError::UnknownLogLevel)
    }
}

/// Spec-level decoding of a native log message: text first, then level.
pub open spec fn spec_log_message(m: WireLogMessage) -> Result<LogMessageV, ConversionError> {
    match spec_decode_nul_terminated(m.text@) {
        Result::Err(e) => Result::Err(e),
        Result::Ok(text) => match spec_log_level(m.level) {
            Result::Err(e) => Result::Err(e),
            Result::Ok(level) => Result::Ok(LogMessageV { text, level }),
        },
    }
}

/// Convert a native log message to an owned [`LogMessage`].
pub fn raptor_log_message_to_rust_log_message(message: &WireLogMessage) -> (r: Result<
    LogMessage,
    ConversionError,
>)
    ensures
        conversion_result(r) == spec_log_message(*message),
{
    let text = match raptor_string_to_rust_string(message.text.as_slice()) {
        Result::Ok(s) => s,
        Result::Err(e) => {
            return Result::Err(e);
        },
    };
    let level = match raptor_log_level_to_rust_log_level(message.level) {
        Result::Ok(l) => l,
        Result::Err(e) => {
            return Result::Err(e);
        },
    };
    Result::Ok(LogMessage { text, level })
}

/// Spec-level decoding of a native locator: null pointers and negative
/// position fields are the engine's "unknown" sentinels and become `None`.
pub open spec fn spec_locator(l: WireLocator) -> Result<LocatorV, ConversionError> {
    match spec_opt_uri(l.uri) {
        Result::Err(e) => Result::Err(e),
        Result::Ok(iri) => match spec_opt_nul_terminated(l.file) {
            Result::Err(e) => Result::Err(e),
            Result::Ok(file) => Result::Ok(
                LocatorV {
                    iri,
                    file,
                    line: if l.line < 0 {
                        Option::None
                    } else {
                        Option::Some(l.line)
                    },
                    column: if l.column < 0 {
                        Option::None
                    } else {
                        Option::Some(l.column)
                    },
                    byte: if l.byte < 0 {
                        Option::None
                    } else {
                        Option::Some(l.byte)
                    },
                },
            ),
        },
    }
}

/// Convert a native locator to an owned [`Locator`].
pub fn raptor_locator_to_rust_locator(locator: &WireLocator) -> (r: Result<
    Locator,
    ConversionError,
>)
    ensures
        conversion_result(r) == spec_locator(*locator),
{
    let iri = match raptor_uri_to_rust_iri_maybe(&locator.uri) {
        Result::Ok(i) => i,
        Result::Err(e) => {
            return Result::Err(e);
        },
    };
    let file = match raptor_string_to_rust_string_maybe(&locator.file) {
        Result::Ok(f) => f,
        Result::Err(e) => {
            return Result::Err(e);
        },
    };
    let line = if locator.line < 0 {
        Option::None
    } else {
        Option::Some(locator.line)
    };
    let column = if locator.column < 0 {
        Option::None
    } else {
        Option::Some(locator.column)
    };
    let byte = if locator.byte < 0 {
        Option::None
    } else {
        Option::Some(locator.byte)
    };
    Result::Ok(Locator { iri, file, line, column, byte })
}

} // verus!
