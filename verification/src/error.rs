//! The errors that session operations report.

use vstd::prelude::*;

verus! {

/// What went wrong, as far as a caller can act on it.
#[derive(Clone, Copy, Debug, PartialEq, Eq, Structural)]
pub enum ErrorKind {
    /// The connection that was used is dead; a new one has to be obtained.
    NeedsReconnect,
    /// The peer refused the credentials.
    Authorization,
    /// The peer rejected a request on a channel.
    NegativeReply,
    /// No shell is registered under the token that was given.
    NotFound,
    /// The channel's pump has stopped; nothing can be sent any more.
    Disconnected,
    /// The device does not offer what was asked for.
    Unsupported,
    /// A network or protocol failure that is none of the above.
    IO,
}

/// An error: its kind and a message for people.
#[derive(Debug, PartialEq, Eq)]
pub struct Error {
    pub kind: ErrorKind,
    pub message: String,
}

impl Error {
    /// An error of `kind` whose message is `message`.
    pub fn new(kind: ErrorKind, message: &str) -> (e: Error)
        ensures
            e.kind == kind,
            e.message@ == message@,
    {
        Error { kind, message: message.to_owned() }
    }

    /// Whether this error asks for the operation to be tried again on a new
    /// connection.
    pub open spec fn needs_reconnect(&self) -> bool {
        self.kind == ErrorKind::NeedsReconnect
    }

    /// Whether this error asks for the operation to be tried again on a new
    /// connection.
    pub fn is_needs_reconnect(&self) -> (b: bool)
        ensures
            b == self.needs_reconnect(),
    {
        self.kind == ErrorKind::NeedsReconnect
    }
}

impl Clone for Error {
    fn clone(&self) -> (e: Error)
        ensures
            e == *self,
    {
        Error { kind: self.kind, message: self.message.clone() }
    }
}

} // verus!
