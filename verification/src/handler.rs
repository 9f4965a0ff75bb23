//! The handler abstraction: the capability a caller implements to receive
//! decoded events, and the two built-in implementations.

use std::collections::VecDeque;
use vstd::prelude::*;

use crate::model::LogMessage;
use crate::model::Statement;

verus! {

/// What a caller implements to receive decoded events.
///
/// The parse session invokes `handle_statement` for every statement the
/// engine emits and `handle_error` for every log event, in the exact order
/// the engine produced them.  A returned error cannot be propagated back
/// into the native engine; the session absorbs it and surfaces the first
/// one from [`Parser::parse_complete`](crate::Parser::parse_complete).
pub trait ParserHandler: Sized {
    /// What this handler's `handle_statement` promises: how the handler
    /// after the call relates to the one before, the statement received
    /// and the result returned.  A handler that leaves the default
    /// promises nothing.
    open spec fn statement_post(
        pre: Self,
        post: Self,
        statement: Statement,
        r: Result<(), String>,
    ) -> bool {
        true
    }

    /// What this handler's `handle_error` promises, in the same shape.
    open spec fn error_post(
        pre: Self,
        post: Self,
        message: LogMessage,
        r: Result<(), String>,
    ) -> bool {
        true
    }

    /// Receive one decoded statement.
    fn handle_statement(&mut self, statement: Statement) -> (r: Result<(), String>)
        ensures
            Self::statement_post(*old(self), *final(self), statement, r),
    ;

    /// Receive one decoded log event.
    fn handle_error(&mut self, message: LogMessage) -> (r: Result<(), String>)
        ensures
            Self::error_post(*old(self), *final(self), message, r),
    ;
}

/// A handler that discards every event and always succeeds.
#[derive(Clone, Copy, Debug, Default)]
pub struct EmptyParserHandler {}

impl ParserHandler for EmptyParserHandler {
    /// Discarding changes nothing and always succeeds.
    open spec fn statement_post(
        pre: Self,
        post: Self,
        statement: Statement,
        r: Result<(), String>,
    ) -> bool {
        post == pre && r is Ok
    }

    open spec fn error_post(
        pre: Self,
        post: Self,
        message: LogMessage,
        r: Result<(), String>,
    ) -> bool {
        post == pre && r is Ok
    }

    fn handle_statement(&mut self, statement: Statement) -> (r: Result<(), String>) {
        Result::Ok(())
    }

    fn handle_error(&mut self, message: LogMessage) -> (r: Result<(), String>) {
        Result::Ok(())
    }
}

/// A handler that appends every event, in arrival order, to one
/// double-ended timeline: statements as `Ok`, log events as `Err`.
/// Keeping both in a single sequence lets a caller reconstruct where a
/// log event fell between statements.
#[derive(Debug)]
pub struct MemoryParserHandler(pub VecDeque<Result<Statement, LogMessage>>);

impl MemoryParserHandler {
    /// A fresh handler with an empty timeline.
    pub fn new() -> (r: MemoryParserHandler)
        ensures
            r.0@ == Seq::<Result<Statement, LogMessage>>::empty(),
    {
        MemoryParserHandler(VecDeque::new())
    }
}

impl ParserHandler for MemoryParserHandler {
    /// The timeline grows by exactly this statement, at the back; the
    /// call always succeeds.
    open spec fn statement_post(
        pre: Self,
        post: Self,
        statement: Statement,
        r: Result<(), String>,
    ) -> bool {
        post.0@ == pre.0@.push(Result::Ok(statement)) && r is Ok
    }

    /// The timeline grows by exactly this log event, at the back; the
    /// call always succeeds.
    open spec fn error_post(
        pre: Self,
        post: Self,
        message: LogMessage,
        r: Result<(), String>,
    ) -> bool {
        post.0@ == pre.0@.push(Result::Err(message)) && r is Ok
    }

    fn handle_statement(&mut self, statement: Statement) -> (r: Result<(), String>) {
        self.0.push_back(Result::Ok(statement));
        Result::Ok(())
    }

    fn handle_error(&mut self, message: LogMessage) -> (r: Result<(), String>) {
        self.0.push_back(Result::Err(message));
        Result::Ok(())
    }
}

} // verus!
