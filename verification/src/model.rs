//! The RDF term and event data model.
//!
//! These are fully owned values: once constructed they carry no reference
//! back into the native engine's memory.  They are produced by the
//! conversion layer (`convert`) at the moment an engine callback fires and
//! are consumed by a [`ParserHandler`](crate::ParserHandler).
//!
//! Each type has a mathematical view (`IRI@` is a `Seq<char>`, `Literal@`
//! is a [`LiteralV`], and so on) that the contracts of the conversion layer
//! and of the parse session are stated over.

use vstd::prelude::*;

verus! {

/// An owned string identifying a resource.  This layer treats the string
/// as opaque; in particular it is not required to be non-empty.
#[derive(Clone, Debug, PartialEq, Eq)]
pub struct IRI(pub String);

impl View for IRI {
    type V = Seq<char>;

    open spec fn view(&self) -> Seq<char> {
        self.0@
    }
}

/// An RDF literal: a value with an optional datatype IRI and an optional
/// language tag.  Both may be absent (a simple literal); this layer does
/// not require them to be mutually exclusive — the engine enforces RDF
/// literal well-formedness upstream.
#[derive(Clone, Debug, PartialEq, Eq)]
pub struct Literal {
    pub value: String,
    pub datatype: Option<IRI>,
    pub lang: Option<String>,
}

/// Mathematical view of a [`Literal`].
pub ghost struct LiteralV {
    pub value: Seq<char>,
    pub datatype: Option<Seq<char>>,
    pub lang: Option<Seq<char>>,
}

impl View for Literal {
    type V = LiteralV;

    open spec fn view(&self) -> LiteralV {
        LiteralV {
            value: self.value@,
            datatype: match self.datatype {
                Option::Some(d) => Option::Some(d@),
                Option::None => Option::None,
            },
            lang: match self.lang {
                Option::Some(l) => Option::Some(l@),
                Option::None => Option::None,
            },
        }
    }
}

/// One RDF node role: a resource, a literal value, or a blank node label.
///
/// The native engine has a fourth tag, "unknown"; it is a conversion
/// failure and is never represented here.
#[derive(Clone, Debug, PartialEq, Eq)]
pub enum Term {
    URI(IRI),
    Literal(Literal),
    Blank(String),
}

/// Mathematical view of a [`Term`].
pub ghost enum TermV {
    URI(Seq<char>),
    Literal(LiteralV),
    Blank(Seq<char>),
}

impl View for Term {
    type V = TermV;

    open spec fn view(&self) -> TermV {
        match self {
            Term::URI(iri) => TermV::URI(iri@),
            Term::Literal(lit) => TermV::Literal(lit@),
            Term::Blank(label) => TermV::Blank(label@),
        }
    }
}

/// One RDF triple (or quad): subject, predicate and object are always
/// present; `graph` is present only when the engine operates in a
/// named-graph mode.
#[derive(Clone, Debug, PartialEq, Eq)]
pub struct Statement {
    pub subject: Term,
    pub predicate: Term,
    pub object: Term,
    pub graph: Option<Term>,
}

/// Mathematical view of a [`Statement`].
pub ghost struct StatementV {
    pub subject: TermV,
    pub predicate: TermV,
    pub object: TermV,
    pub graph: Option<TermV>,
}

impl View for Statement {
    type V = StatementV;

    open spec fn view(&self) -> StatementV {
        StatementV {
            subject: self.subject@,
            predicate: self.predicate@,
            object: self.object@,
            graph: match self.graph {
                Option::Some(g) => Option::Some(g@),
                Option::None => Option::None,
            },
        }
    }
}

/// Severity of an engine log event, ordered from no level at all up to
/// fatal.  Use [`LogLevel::severity`] to compare two levels.
#[derive(Clone, Copy, Debug, PartialEq, Eq, Structural)]
pub enum LogLevel {
    NoLevel,
    Trace,
    Debug,
    Info,
    Warn,
    Error,
    Fatal,
}

impl LogLevel {
    /// Rank of this level in the severity order, 0 for `NoLevel` up to
    /// 6 for `Fatal`.
    pub open spec fn severity_spec(self) -> u8 {
        match self {
            LogLevel::NoLevel => 0,
            LogLevel::Trace => 1,
            LogLevel::Debug => 2,
            LogLevel::Info => 3,
            LogLevel::Warn => 4,
            LogLevel::Error => 5,
            LogLevel::Fatal => 6,
        }
    }

    /// Rank of this level in the severity order: a level is at least as
    /// severe as another exactly when its rank is at least as large.
    pub fn severity(self) -> (n: u8)
        ensures
            n == self.severity_spec(),
    {
        match self {
            LogLevel::NoLevel => 0,
            LogLevel::Trace => 1,
            LogLevel::Debug => 2,
            LogLevel::Info => 3,
            LogLevel::Warn => 4,
            LogLevel::Error => 5,
            LogLevel::Fatal => 6,
        }
    }
}

/// A diagnostic the engine emitted: both genuine parse errors and
/// informational messages travel this way; callers distinguish by level.
#[derive(Clone, Debug, PartialEq, Eq)]
pub struct LogMessage {
    pub text: String,
    pub level: LogLevel,
}

/// Mathematical view of a [`LogMessage`].
pub ghost struct LogMessageV {
    pub text: Seq<char>,
    pub level: LogLevel,
}

impl View for LogMessage {
    type V = LogMessageV;

    open spec fn view(&self) -> LogMessageV {
        LogMessageV { text: self.text@, level: self.level }
    }
}

/// Where in the input an engine diagnostic arose.  A field is absent when
/// the engine reported its sentinel "unknown" value (a negative number or
/// a null pointer).
#[derive(Clone, Debug, PartialEq, Eq)]
pub struct Locator {
    pub iri: Option<IRI>,
    pub file: Option<String>,
    pub line: Option<i32>,
    pub column: Option<i32>,
    pub byte: Option<i32>,
}

/// Mathematical view of a [`Locator`].
pub ghost struct LocatorV {
    pub iri: Option<Seq<char>>,
    pub file: Option<Seq<char>>,
    pub line: Option<i32>,
    pub column: Option<i32>,
    pub byte: Option<i32>,
}

impl View for Locator {
    type V = LocatorV;

    open spec fn view(&self) -> LocatorV {
        LocatorV {
            iri: match self.iri {
                Option::Some(i) => Option::Some(i@),
                Option::None => Option::None,
            },
            file: match self.file {
                Option::Some(f) => Option::Some(f@),
                Option::None => Option::None,
            },
            line: self.line,
            column: self.column,
            byte: self.byte,
        }
    }
}

} // verus!
