use vstd::prelude::*;

verus! {

/// The error taxonomy of the client.
///
/// Every failure of a command is classified as exactly one of these.
/// `Api` carries the error body reported by the remote service (which is
/// rendered for the user before the error is propagated); `Transport`
/// failures carry no well-formed body and are never rendered.
#[derive(Debug, PartialEq, Eq)]
pub enum Error {
    /// Persisted configuration was unreadable or corrupt.
    Config(String),
    /// The requested or default server name is not in the configuration.
    UnknownServer(String),
    /// The remote service accepted the request but reported a failure;
    /// the payload is the error body it returned.
    Api(String),
    /// The request could not complete: network failure, malformed
    /// connection, or a decode failure of the exchange itself.
    Transport(String),
    /// A malformed user-supplied identifier, detected before any
    /// network call is attempted.
    Validation(String),
}

} // verus!
