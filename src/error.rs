//! The errors of the ticker.

use vstd::prelude::*;

verus! {

/// What can go wrong while a snapshot is fetched, decoded or handled.
#[derive(Debug, Clone)]
pub enum Error {
    /// Reading a local snapshot or driving the terminal failed.
    IoError { message: String },
    /// A payload could not be decoded.
    SerdeError { message: String },
    /// The upstream source could not be reached, or answered with a failure.
    ReqwestError { message: String },
    /// A field did not hold the notation it should.
    ParseError(String),
    /// The action is not available for this source.
    Todo(String),
}

/// Whether `e` reports a malformed field with the message `message`.
pub open spec fn is_parse_error(e: Error, message: Seq<char>) -> bool {
    match e {
        Error::ParseError(m) => m@ == message,
        _ => false,
    }
}

/// Whether `e` reports an unavailable action with the message `message`.
pub open spec fn is_todo(e: Error, message: Seq<char>) -> bool {
    match e {
        Error::Todo(m) => m@ == message,
        _ => false,
    }
}

} // verus!
