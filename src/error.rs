use vstd::prelude::*;

verus! {

/// The ways an exchange, or the work around it, can fail.
#[derive(Debug, Clone, PartialEq, Eq)]
pub enum ClientError {
    /// Configuration is missing or unusable.
    ConfigError(String),
    /// Local persistence failed.
    IoError(String),
    /// Connecting (or the TLS handshake) failed on every attempt; holds the last cause.
    NetworkError(String),
    /// The peer closed the connection before sending a single byte.
    ConnectionClosedEarly,
    /// The bytes received are not a well-formed message.
    ParseError(String),
    /// The response signature does not match its content.
    SignatureError,
    /// A collaborator call kept failing until its attempts ran out.
    ExhaustedRetries(String),
    /// The collaborator rejected the login.
    AuthError(String),
}

} // verus!
