//! The unified error taxonomy: one error type wrapping exactly one of a
//! mail/protocol failure, a local I/O failure, a secure-store failure or a
//! serialization failure, with a short user-facing message and a stable
//! external representation.

use vstd::prelude::*;

verus! {

/// What the secure credential store reported for a failed read or write,
/// reduced to the distinction the session logic needs: a missing entry
/// (there is genuinely nothing to rehydrate from) versus any other
/// storage failure, whose text is kept for diagnostics.
#[derive(Debug, Clone)]
pub enum StoreError {
    NotFound,
    Other(String),
}

/// The cause of a failure, one variant per collaborating subsystem.
#[derive(Debug, Clone)]
pub enum ErrorKind {
    /// A protocol or network failure reported by the mail engine; carries
    /// the engine's own message.
    Mail(String),
    /// A local file or system failure; carries the reported message.
    Io(String),
    /// A secure credential store failure.
    Keyring(StoreError),
    /// A serialization or deserialization failure; carries the reported
    /// message.
    Json(String),
}

/// A failure from any collaborator, normalized: a short user-presentable
/// message beside the kind that retains the original cause.
#[derive(Debug, Clone)]
pub struct Error {
    message: String,
    kind: ErrorKind,
}

impl Error {
    /// The retained cause.
    pub closed spec fn spec_kind(self) -> ErrorKind {
        self.kind
    }

    /// The short user-facing message.
    pub closed spec fn spec_message(self) -> Seq<char> {
        self.message@
    }

    pub fn new(kind: ErrorKind, msg: String) -> (r: Error)
        ensures
            r.spec_kind() == kind,
            r.spec_message() == msg@,
    {
        Error { message: msg, kind }
    }

    pub fn kind(&self) -> (r: &ErrorKind)
        ensures
            *r == self.spec_kind(),
    {
        &self.kind
    }

    /// Wraps a mail engine failure under the fixed upstream-server message.
    pub fn from_mail(cause: String) -> (r: Error)
        ensures
            r.spec_kind() == ErrorKind::Mail(cause),
            r.spec_message() == "Error with upstream mail server"@,
    {
        Error {
            message: String::from_str("Error with upstream mail server"),
            kind: ErrorKind::Mail(cause),
        }
    }

    /// Wraps a local I/O failure under the fixed I/O message.
    pub fn from_io(cause: String) -> (r: Error)
        ensures
            r.spec_kind() == ErrorKind::Io(cause),
            r.spec_message() == "IO error"@,
    {
        Error { message: String::from_str("IO error"), kind: ErrorKind::Io(cause) }
    }

    /// Wraps a secure-store failure under the fixed keyring message.
    pub fn from_keyring(cause: StoreError) -> (r: Error)
        ensures
            r.spec_kind() == ErrorKind::Keyring(cause),
            r.spec_message() == "Error with keyring"@,
    {
        Error {
            message: String::from_str("Error with keyring"),
            kind: ErrorKind::Keyring(cause),
        }
    }

    /// Wraps a serialization failure under the fixed JSON message.
    pub fn from_json(cause: String) -> (r: Error)
        ensures
            r.spec_kind() == ErrorKind::Json(cause),
            r.spec_message() == "Failed to serialize/deserialize json data"@,
    {
        Error {
            message: String::from_str("Failed to serialize/deserialize json data"),
            kind: ErrorKind::Json(cause),
        }
    }

    /// The short, stable user-facing summary, independent of the wrapped
    /// cause's own text.
    pub fn describe(&self) -> (r: String)
        ensures
            r@ == self.spec_message(),
    {
        self.message.clone()
    }

    /// The `message` field of the external representation: the nested
    /// cause's own text where one was retained, else this error's summary.
    pub fn boundary_message(&self) -> (r: String)
        ensures
            r@ == spec_boundary_message(*self),
    {
        match &self.kind {
            ErrorKind::Mail(cause) => cause.clone(),
            ErrorKind::Io(cause) => cause.clone(),
            ErrorKind::Json(cause) => cause.clone(),
            ErrorKind::Keyring(StoreError::Other(cause)) => cause.clone(),
            ErrorKind::Keyring(StoreError::NotFound) => self.message.clone(),
        }
    }

    /// The `kind` tag of the external representation: every variant is
    /// reported under the one generic tag.
    pub fn boundary_kind(&self) -> (r: String)
        ensures
            r@ == "MailError"@,
    {
        String::from_str("MailError")
    }
}

/// What crosses the system boundary as the `message` field: the retained
/// cause's text, or the summary for a store miss, which retains no text.
pub open spec fn spec_boundary_message(e: Error) -> Seq<char> {
    match e.spec_kind() {
        ErrorKind::Mail(cause) => cause@,
        ErrorKind::Io(cause) => cause@,
        ErrorKind::Json(cause) => cause@,
        ErrorKind::Keyring(StoreError::Other(cause)) => cause@,
        ErrorKind::Keyring(StoreError::NotFound) => e.spec_message(),
    }
}

} // verus!
