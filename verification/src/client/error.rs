//! The errors the library reports.
use vstd::prelude::*;

verus! {

/// What went wrong.
#[derive(Debug, Clone, Copy, PartialEq, Eq, Structural)]
pub enum ErrorKind {
    /// The stream to the server could not be established.
    Connection,
    /// The server answered the handshake with anything but an affirmative.
    HandshakeRejected,
    /// A pattern could not be expanded or parsed, or some of its matches were
    /// unreadable.
    PathResolution,
    /// A file was missing or unreadable when its turn to be sent came.
    FileAccess,
    /// A write to the stream failed.
    ProtocolWrite,
    /// A read from the stream failed.
    ProtocolRead,
    /// A file name cannot be represented as text.
    Encoding,
}

/// An error: its kind and a description for the user.
#[derive(Debug, Clone)]
pub struct MossError {
    pub kind: ErrorKind,
    pub message: String,
}

impl MossError {
    /// The model of an error: its kind and the characters of its message.
    pub open spec fn view(&self) -> (ErrorKind, Seq<char>) {
        (self.kind, self.message@)
    }

    /// The kind of the error.
    pub fn kind(&self) -> (k: ErrorKind)
        ensures
            k == self.kind,
    {
        self.kind
    }

    /// The description of the error.
    pub fn message(&self) -> (m: &str)
        ensures
            m@ == self.message@,
    {
        self.message.as_str()
    }
}

} // verus!
