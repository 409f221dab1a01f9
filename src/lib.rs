//! Client side of a signed, one-shot request/response exchange: request
//! signing, response verification, session continuity, connection retry
//! decisions and close-delimited stream reassembly.
pub mod error;
pub mod outside;
pub mod text;
pub mod signing;
pub mod session;
pub mod transport;
pub mod wire;
pub mod client;
pub mod directory;
