//! The parse session: the chunked-feed state machine that drives the
//! foreign engine, and the bridge that turns decoded engine events into
//! handler calls.
//!
//! A session moves `Started -> (feeding)* -> Completed`.  Its view
//! ([`SessionV`]) records the syntax and base URI it was built with, the
//! byte stream fed so far, the ordered timeline of delivered events, and
//! the first absorbed error.  The engine's own callbacks arrive through
//! [`Parser::deliver_statement`] and [`Parser::deliver_log_message`];
//! the unverified native boundary calls them with deep-copied wire values.
//!
//! Re-entrancy: the engine invokes the bridge synchronously while a feed
//! is still on the stack.  A handler must not call back into the same
//! session (no re-entrant feeding); the underlying engine leaves that
//! undefined, and this layer does not guard against it.

use vstd::prelude::*;
use vstd::string::StringSliceAdditionalSpecFns;

use crate::convert::spec_log_message;
use crate::convert::spec_statement;
use crate::convert::ConversionError;
use crate::convert::raptor_log_message_to_rust_log_message;
use crate::convert::raptor_statement_to_rust_statement;
use crate::handler::ParserHandler;
use crate::model::LogMessage;
use crate::model::LogMessageV;
use crate::model::Statement;
use crate::model::StatementV;
use crate::wire::WireLogMessage;
use crate::wire::WireStatement;

verus! {

/// Why a parse session could not be constructed.  No partial session is
/// ever produced: construction either yields a started session or one of
/// these.
#[derive(Clone, Copy, Debug, PartialEq, Eq, Structural)]
pub enum ConstructionError {
    /// A string argument holds an embedded nul byte, which the native
    /// engine's string convention cannot carry.
    EmbeddedNul,
    /// The engine does not recognize the requested syntax name.  (The
    /// registry of names is the engine's; this layer never decides this
    /// itself — the native boundary reports it.)
    UnrecognizedSyntax,
    /// The engine failed to allocate a native object.
    AllocationFailed,
}

/// Mathematical view of a parse session.
#[verifier::ext_equal]
pub ghost struct SessionV {
    /// The syntax name the session was constructed with.
    pub syntax: Seq<char>,
    /// The base URI the session was constructed with.
    pub base_uri: Seq<char>,
    /// Whether end-of-input has been signalled.
    pub completed: bool,
    /// The byte stream handed to the engine so far: the concatenation of
    /// every chunk fed, in order.
    pub fed: Seq<u8>,
    /// The timeline of events delivered to the handler, in arrival order:
    /// statements as `Ok`, log events as `Err`.
    pub events: Seq<Result<StatementV, LogMessageV>>,
    /// The first absorbed error, if any: a handler failure or a
    /// conversion failure, whichever came first.
    pub first_error: Option<Seq<char>>,
}

/// The view of a session just constructed: started, nothing fed, nothing
/// delivered, no error absorbed.
pub open spec fn fresh_session(syntax: Seq<char>, base_uri: Seq<char>) -> SessionV {
    SessionV {
        syntax,
        base_uri,
        completed: false,
        fed: Seq::empty(),
        events: Seq::empty(),
        first_error: Option::None,
    }
}

/// Feeding one chunk: the fed stream grows by exactly the chunk's bytes.
/// A completed session accepts nothing more; feeding it changes nothing.
pub open spec fn spec_feed(s: SessionV, chunk: Seq<u8>) -> SessionV {
    if s.completed {
        s
    } else {
        SessionV { fed: s.fed + chunk, ..s }
    }
}

/// Feeding a whole sequence of chunks, in order.
pub open spec fn spec_feed_all(s: SessionV, chunks: Seq<Seq<u8>>) -> SessionV
    decreases chunks.len(),
{
    if chunks.len() == 0 {
        s
    } else {
        spec_feed_all(spec_feed(s, chunks.first()), chunks.drop_first())
    }
}

/// Signalling end of input: only the state flag moves.
pub open spec fn spec_complete(s: SessionV) -> SessionV {
    SessionV { completed: true, ..s }
}

/// Whether the UTF-8 encoding of a string holds an embedded nul byte —
/// the one thing the native engine's string convention cannot carry.
pub open spec fn contains_nul(s: &str) -> bool {
    s.spec_bytes().contains(0)
}

/// Feeding a sequence of chunks into a started session extends the fed
/// stream by exactly their concatenation, and changes nothing else.
pub proof fn lemma_feed_all_fed(s: SessionV, chunks: Seq<Seq<u8>>)
    requires
        !s.completed,
    ensures
        spec_feed_all(s, chunks) == (SessionV { fed: s.fed + chunks.flatten(), ..s }),
    decreases chunks.len(),
{
    if chunks.len() == 0 {
        assert(spec_feed_all(s, chunks) =~= (SessionV { fed: s.fed + chunks.flatten(), ..s }));
    } else {
        let s1 = spec_feed(s, chunks.first());
        lemma_feed_all_fed(s1, chunks.drop_first());
        assert(s1.fed + chunks.drop_first().flatten() =~= s.fed + chunks.flatten());
        assert(spec_feed_all(s, chunks) =~= (SessionV { fed: s.fed + chunks.flatten(), ..s }));
    }
}

/// Chunk-size invariance at the adapter: two chunkings of the same
/// document — the same concatenated byte stream — leave a started session
/// in the same state.  The engine guarantees the other half, that equal
/// byte streams produce equal statement sequences; together they make
/// feeding a document in one chunk and feeding it byte by byte
/// observably equivalent.
pub proof fn lemma_chunk_size_invariance(s: SessionV, a: Seq<Seq<u8>>, b: Seq<Seq<u8>>)
    requires
        !s.completed,
        a.flatten() == b.flatten(),
    ensures
        spec_feed_all(s, a) == spec_feed_all(s, b),
{
    lemma_feed_all_fed(s, a);
    lemma_feed_all_fed(s, b);
}

/// A parse session bound to one handler, one syntax and one base URI.
///
/// The native engine object the session drives lives behind the
/// unverified boundary; what stands here is everything the adapter
/// decides: argument validation, the feed state machine, the event
/// timeline, and the absorption of errors that the native callback
/// convention cannot propagate.
pub struct Parser<H> {
    handler: H,
    syntax: String,
    base_uri: String,
    completed: bool,
    first_error: Option<String>,
    fed: Ghost<Seq<u8>>,
    events: Ghost<Seq<Result<StatementV, LogMessageV>>>,
}

impl<H> View for Parser<H> {
    type V = SessionV;

    closed spec fn view(&self) -> SessionV {
        SessionV {
            syntax: self.syntax@,
            base_uri: self.base_uri@,
            completed: self.completed,
            fed: self.fed@,
            events: self.events@,
            first_error: match self.first_error {
                Option::Some(m) => Option::Some(m@),
                Option::None => Option::None,
            },
        }
    }
}

impl<H: ParserHandler> Parser<H> {
    /// The handler this session delivers events to.
    pub closed spec fn spec_handler(&self) -> H {
        self.handler
    }

    /// Construct a parse session for the given syntax name and base URI,
    /// bound to `handler`, and start the parse.
    ///
    /// Construction fails — and no partial session is produced — exactly
    /// when an argument holds an embedded nul byte.  (An unrecognized
    /// syntax name is rejected by the engine itself, at the native
    /// boundary.)
    pub fn new(kind: &str, baseuri: &str, handler: H) -> (r: Result<Parser<H>, ConstructionError>)
        ensures
            r is Ok <==> !contains_nul(kind) && !contains_nul(baseuri),
            r matches Ok(p) ==> p@ == fresh_session(kind@, baseuri@) && p.spec_handler()
                == handler,
            r matches Err(e) ==> e == ConstructionError::EmbeddedNul,
    {
        if str_has_nul(kind) || str_has_nul(baseuri) {
            Result::Err(ConstructionError::EmbeddedNul)
        } else {
            Result::Ok(
                Parser {
                    handler,
                    syntax: kind.to_owned(),
                    base_uri: baseuri.to_owned(),
                    completed: false,
                    first_error: Option::None,
                    fed: Ghost(Seq::empty()),
                    events: Ghost(Seq::empty()),
                },
            )
        }
    }

    /// Push one chunk of source text into the session.
    ///
    /// Chunk boundaries carry no meaning: the engine reassembles tokens
    /// that span chunks, so only the concatenation of the fed chunks
    /// matters (see [`lemma_chunk_size_invariance`]).  Feeding a
    /// completed session is a no-op: the session accepts nothing after
    /// end of input.
    pub fn parse_chunk(&mut self, content: &str)
        ensures
            final(self)@ == spec_feed(old(self)@, content.spec_bytes()),
            final(self).spec_handler() == old(self).spec_handler(),
    {
        if !self.completed {
            self.fed = Ghost(self.fed@ + content.spec_bytes());
        }
    }

    /// Signal end of input and surface the first absorbed error, if any.
    ///
    /// The native callback convention cannot propagate a handler's
    /// failure, so the bridge absorbs it ([`Parser::deliver_statement`]);
    /// this is where it becomes observable.  Completing an already
    /// completed session changes nothing and reports the same outcome.
    pub fn parse_complete(&mut self) -> (r: Result<(), String>)
        ensures
            final(self)@ == spec_complete(old(self)@),
            final(self).spec_handler() == old(self).spec_handler(),
            r is Ok <==> old(self)@.first_error is None,
            r matches Err(m) ==> old(self)@.first_error == Option::Some(m@),
    {
        self.completed = true;
        match &self.first_error {
            Option::Some(m) => Result::Err(m.clone()),
            Option::None => Result::Ok(()),
        }
    }

    /// The statement half of the callback bridge: decode one native
    /// statement and forward it to the handler.
    ///
    /// On a decoded statement the event joins the timeline and the
    /// handler receives it, whatever it answers — a handler failure is
    /// absorbed, recorded if it is the first.  A conversion failure
    /// delivers nothing: it is recorded if it is the first error, and
    /// returned.
    pub fn deliver_statement(&mut self, statement: &WireStatement) -> (r: Result<
        (),
        ConversionError,
    >)
        ensures
            final(self)@.syntax == old(self)@.syntax,
            final(self)@.base_uri == old(self)@.base_uri,
            final(self)@.completed == old(self)@.completed,
            final(self)@.fed == old(self)@.fed,
            old(self)@.first_error is Some ==> final(self)@.first_error == old(
                self,
            )@.first_error,
            match spec_statement(*statement) {
                Result::Ok(sv) => {
                    &&& r is Ok
                    &&& final(self)@.events == old(self)@.events.push(Result::Ok(sv))
                    &&& (exists|st: Statement, hr: Result<(), String>|
                        {
                            &&& st@ == sv
                            &&& #[trigger] H::statement_post(
                                old(self).spec_handler(),
                                final(self).spec_handler(),
                                st,
                                hr,
                            )
                            &&& hr is Ok ==> final(self)@.first_error == old(self)@.first_error
                            &&& hr matches Err(m) ==> final(self)@.first_error == (
                            if old(self)@.first_error is Some {
                                old(self)@.first_error
                            } else {
                                Option::Some(m@)
                            })
                        })
                },
                Result::Err(e) => {
                    &&& r == Result::<(), ConversionError>::Err(e)
                    &&& final(self)@.events == old(self)@.events
                    &&& final(self).spec_handler() == old(self).spec_handler()
                    &&& old(self)@.first_error is None ==> final(self)@.first_error
                        == Option::Some(e.message_spec())
                },
            },
    {
        match raptor_statement_to_rust_statement(statement) {
            Result::Ok(st) => {
                self.events = Ghost(self.events@.push(Result::Ok(st@)));
                let ghost st_snapshot = st;
                let hr = self.handler.handle_statement(st);
                let ghost hr_snapshot = hr;
                match hr {
                    Result::Ok(_) => {},
                    Result::Err(msg) => {
                        if self.first_error.is_none() {
                            self.first_error = Option::Some(msg);
                        }
                    },
                }
                proof {
                    assert(H::statement_post(
                        old(self).spec_handler(),
                        self.spec_handler(),
                        st_snapshot,
                        hr_snapshot,
                    ));
                }
                Result::Ok(())
            },
            Result::Err(e) => {
                if self.first_error.is_none() {
                    self.first_error = Option::Some(e.message());
                }
                Result::Err(e)
            },
        }
    }

    /// The log half of the callback bridge: decode one native log message
    /// and forward it to the handler.  Same discipline as
    /// [`Parser::deliver_statement`].
    pub fn deliver_log_message(&mut self, message: &WireLogMessage) -> (r: Result<
        (),
        ConversionError,
    >)
        ensures
            final(self)@.syntax == old(self)@.syntax,
            final(self)@.base_uri == old(self)@.base_uri,
            final(self)@.completed == old(self)@.completed,
            final(self)@.fed == old(self)@.fed,
            old(self)@.first_error is Some ==> final(self)@.first_error == old(
                self,
            )@.first_error,
            match spec_log_message(*message) {
                Result::Ok(mv) => {
                    &&& r is Ok
                    &&& final(self)@.events == old(self)@.events.push(Result::Err(mv))
                    &&& (exists|lm: LogMessage, hr: Result<(), String>|
                        {
                            &&& lm@ == mv
                            &&& #[trigger] H::error_post(
                                old(self).spec_handler(),
                                final(self).spec_handler(),
                                lm,
                                hr,
                            )
                            &&& hr is Ok ==> final(self)@.first_error == old(self)@.first_error
                            &&& hr matches Err(m) ==> final(self)@.first_error == (
                            if old(self)@.first_error is Some {
                                old(self)@.first_error
                            } else {
                                Option::Some(m@)
                            })
                        })
                },
                Result::Err(e) => {
                    &&& r == Result::<(), ConversionError>::Err(e)
                    &&& final(self)@.events == old(self)@.events
                    &&& final(self).spec_handler() == old(self).spec_handler()
                    &&& old(self)@.first_error is None ==> final(self)@.first_error
                        == Option::Some(e.message_spec())
                },
            },
    {
        match raptor_log_message_to_rust_log_message(message) {
            Result::Ok(lm) => {
                self.events = Ghost(self.events@.push(Result::Err(lm@)));
                let ghost lm_snapshot = lm;
                let hr = self.handler.handle_error(lm);
                let ghost hr_snapshot = hr;
                match hr {
                    Result::Ok(_) => {},
                    Result::Err(msg) => {
                        if self.first_error.is_none() {
                            self.first_error = Option::Some(msg);
                        }
                    },
                }
                proof {
                    assert(H::error_post(
                        old(self).spec_handler(),
                        self.spec_handler(),
                        lm_snapshot,
                        hr_snapshot,
                    ));
                }
                Result::Ok(())
            },
            Result::Err(e) => {
                if self.first_error.is_none() {
                    self.first_error = Option::Some(e.message());
                }
                Result::Err(e)
            },
        }
    }

    /// Whether end of input has been signalled.  Once it has, the session
    /// accepts no further chunks, and the caller driving the engine must
    /// hand it nothing either.
    pub fn is_completed(&self) -> (r: bool)
        ensures
            r == self@.completed,
    {
        self.completed
    }

    /// Read access to the handler, e.g. to inspect a buffering handler's
    /// timeline after a parse.
    pub fn handler(&self) -> (r: &H)
        ensures
            *r == self.spec_handler(),
    {
        &self.handler
    }

    /// Take the handler back, consuming the session.
    pub fn into_handler(self) -> (r: H)
        ensures
            r == self.spec_handler(),
    {
        self.handler
    }
}

/// Whether a string's UTF-8 bytes hold an embedded nul.
fn str_has_nul(s: &str) -> (r: bool)
    ensures
        r == contains_nul(s),
{
    let bytes = s.as_bytes();
    let n = bytes.len();
    let mut i: usize = 0;
    while i < n && bytes[i] != 0
        invariant
            i <= n == bytes@.len(),
            bytes@ == s.spec_bytes(),
            forall|j: int| 0 <= j < i ==> bytes@[j] != 0,
        decreases n - i,
    {
        i = i + 1;
    }
    if i < n {
        assert(s.spec_bytes().contains(0)) by {
            assert(s.spec_bytes()[i as int] == 0);
        }
        true
    } else {
        assert(!s.spec_bytes().contains(0));
        false
    }
}

} // verus!
