//! The failures that the supervisor reports.

use vstd::prelude::*;

verus! {

/// What went wrong, by kind.
#[derive(Clone, Copy, Debug, PartialEq, Eq, Structural)]
pub enum ErrorKind {
    /// The operating system refused to create a process or a pseudo-terminal.
    Spawn,
    /// The request named a session that is not live.
    NotFound,
    /// Reading or writing a live session's stream failed.
    Io,
    /// A health probe took longer than its bound.
    Timeout,
}

/// A failure: its kind, and a text for people that names the operation and,
/// where there is one, the session.
#[derive(Clone, Debug, PartialEq, Eq)]
pub struct SupervisorError {
    pub kind: ErrorKind,
    pub detail: String,
}

impl SupervisorError {
    /// A failure of `kind` whose text is `context` followed by `detail`.
    pub fn with_context(kind: ErrorKind, context: &str, detail: &str) -> (e: SupervisorError)
        ensures
            e.kind == kind,
            e.detail@ == context@ + detail@,
    {
        let mut text: String = String::from_str(context);
        text.append(detail);
        SupervisorError { kind, detail: text }
    }

    /// The kind of the failure.
    pub fn kind(&self) -> (kind: ErrorKind)
        ensures
            kind == self.kind,
    {
        self.kind
    }

    /// The text of the failure.
    pub fn message(&self) -> (text: String)
        ensures
            text@ == self.detail@,
    {
        self.detail.clone()
    }
}

} // verus!
