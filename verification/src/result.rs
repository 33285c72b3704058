//! The errors that the runtime's operations return.

use vstd::prelude::*;

verus! {

/// The kinds of failure.
#[derive(Debug)]
pub enum ErrorType {
    /// The peer closed the stream.
    Eof,
    /// The operation would block: readiness is to be awaited again.
    Blocked,
    /// The operating system refused; the text says how.
    IoError(String),
    /// The deadline of the whole connection passed.
    Timeout,
    /// The deadline of one read passed.
    ReadTimeout,
    /// The deadline of one write passed.
    WriteTimeout,
    /// A rule of the runtime or of a protocol above it was broken.
    RuntimeError(String),
}

/// What the operating system says of a failed read or write, as far as the
/// runtime tells the cases apart.
#[derive(Clone, Copy, Debug, PartialEq, Eq, Structural)]
pub enum IoKind {
    /// The stream ended.
    UnexpectedEof,
    /// Nothing can be read or written now.
    WouldBlock,
    /// Anything else.
    Other,
}

/// An error of the runtime.
#[derive(Debug)]
pub struct Error {
    type_: ErrorType,
}

impl Error {
    /// The kind of failure.
    pub closed spec fn kind(&self) -> ErrorType {
        self.type_
    }

    /// The kind of failure.
    pub fn err_type(&self) -> (kind: &ErrorType)
        ensures
            *kind == self.kind(),
    {
        &self.type_
    }

    /// The error of kind `value`.
    pub fn new(value: ErrorType) -> (e: Self)
        ensures
            e.kind() == value,
    {
        Error { type_: value }
    }

    /// The error for a failure reported by the operating system: the end
    /// of the stream is `Eof`, "would block" is `Blocked`, anything else an
    /// `IoError` with the report's text.
    pub fn from_io(kind: IoKind, text: String) -> (e: Self)
        ensures
            e.kind() == match kind {
                IoKind::UnexpectedEof => ErrorType::Eof,
                IoKind::WouldBlock => ErrorType::Blocked,
                IoKind::Other => ErrorType::IoError(text),
            },
    {
        match kind {
            IoKind::UnexpectedEof => Error::new(ErrorType::Eof),
            IoKind::WouldBlock => Error::new(ErrorType::Blocked),
            IoKind::Other => Error::new(ErrorType::IoError(text)),
        }
    }

    /// The runtime error with the text `value`.
    pub fn from_string(value: String) -> (e: Self)
        ensures
            e.kind() == ErrorType::RuntimeError(value),
    {
        Error::new(ErrorType::RuntimeError(value))
    }

    /// Whether the operation would have blocked.
    pub fn is_blocked(&self) -> (blocked: bool)
        ensures
            blocked == (self.kind() is Blocked),
    {
        match self.type_ {
            ErrorType::Blocked => true,
            _ => false,
        }
    }

    /// Whether the stream has ended.
    pub fn is_eof(&self) -> (eof: bool)
        ensures
            eof == (self.kind() is Eof),
    {
        match self.type_ {
            ErrorType::Eof => true,
            _ => false,
        }
    }
}

} // verus!
