//! The one error type that every failure is normalized into.

use vstd::prelude::*;
use vstd::string::to_string_from_display_ensures;

verus! {

/// Where a failure arose.
#[derive(Debug, Clone, Copy, PartialEq, Eq, Structural)]
pub enum ErrorKind {
    /// The TLS connector could not be built.
    TlsSetup,
    /// The backend could not be reached, or refused the session.
    Connection,
    /// The session was opened, but the statement that selects its schema
    /// failed.
    SessionSetup,
    /// A pooled connection did not answer its health check.
    HealthCheck,
    /// A connection parameter could not be understood.
    InvalidConnectionArguments,
}

/// A failure of this layer: where it arose, and what the backend said.
///
/// Backend-native errors never pass this layer; they are kept as the text
/// they display as.
#[derive(Debug, PartialEq, Eq)]
pub struct DatabaseError {
    pub kind: ErrorKind,
    pub cause: String,
}

impl View for DatabaseError {
    type V = (ErrorKind, Seq<char>);

    open spec fn view(&self) -> (ErrorKind, Seq<char>) {
        (self.kind, self.cause@)
    }
}

impl Clone for DatabaseError {
    fn clone(&self) -> (copy: Self)
        ensures
            copy == *self,
    {
        DatabaseError { kind: self.kind, cause: self.cause.clone() }
    }
}

impl DatabaseError {
    /// A failure of the given kind with the given cause.
    pub fn new(kind: ErrorKind, cause: String) -> (error: Self)
        ensures
            error == (DatabaseError { kind, cause }),
    {
        DatabaseError { kind, cause }
    }

    /// The failure to build a TLS connector, from the error that the TLS
    /// library gave: the cause is the text that error displays as.
    pub fn from_tls(native: &native_tls::Error) -> (error: Self)
        ensures
            error.kind == ErrorKind::TlsSetup,
            to_string_from_display_ensures(native, error.cause),
    {
        DatabaseError { kind: ErrorKind::TlsSetup, cause: native.to_string() }
    }

    /// A connection parameter that could not be understood.
    pub fn invalid_connection_arguments() -> (error: Self)
        ensures
            error@ == (ErrorKind::InvalidConnectionArguments, Seq::<char>::empty()),
    {
        DatabaseError { kind: ErrorKind::InvalidConnectionArguments, cause: String::new() }
    }
}

/// The error that building a TLS connector gives.
#[verifier::external_type_specification]
#[verifier::external_body]
pub struct ExTlsError(native_tls::Error);

} // verus!
