//! The failures that session operations report.

use vstd::prelude::*;
use vstd::string::*;

verus! {

/// Why a configured invocation string cannot be used.
#[derive(Debug, Clone, PartialEq, Eq)]
pub enum CommandFault {
    /// Tokenization left no word at all.
    Empty,
    /// A quote was opened and never closed.
    UnbalancedQuote,
}

/// A failure of a session operation.
#[derive(Debug, Clone, PartialEq, Eq)]
pub enum SessionError {
    /// The configured invocation string is malformed.
    InvalidCommand(CommandFault),
    /// The operation needs a running session and there is none.
    NoActiveSession,
    /// The operating system refused a terminal or process operation.
    IoError(String),
    /// The session state could not be locked.
    LockError,
}

impl SessionError {
    /// The text shown to the caller for this error.
    pub open spec fn message_spec(self) -> Seq<char> {
        match self {
            SessionError::InvalidCommand(CommandFault::Empty) => "command is empty"@,
            SessionError::InvalidCommand(CommandFault::UnbalancedQuote) =>
                "invalid command: missing closing quote"@,
            SessionError::NoActiveSession => "session is not running"@,
            SessionError::IoError(detail) => detail@,
            SessionError::LockError => "failed to lock session state"@,
        }
    }

    /// Renders the error as the text shown to the caller.
    pub fn message(&self) -> (r: String)
        ensures
            r@ == self.message_spec(),
    {
        match self {
            SessionError::InvalidCommand(CommandFault::Empty) => String::from_str(
                "command is empty",
            ),
            SessionError::InvalidCommand(CommandFault::UnbalancedQuote) => String::from_str(
                "invalid command: missing closing quote",
            ),
            SessionError::NoActiveSession => String::from_str("session is not running"),
            SessionError::IoError(detail) => detail.clone(),
            SessionError::LockError => String::from_str("failed to lock session state"),
        }
    }
}

} // verus!
