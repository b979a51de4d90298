//! The core of an HTTPS connector: the bridge between a blocking-style
//! security engine and a poll-driven transport, and the state machine that
//! decides whether a connection is secured and drives the handshake to its
//! end.
//!
//! Every operation that needs outside work (a transport, a plain connector,
//! a security engine) takes that work as a function value. What the library
//! decides around it is stated in contracts, and proved once for every
//! transport, every plain connector and every engine.
//!
//! - `poll`: the poll-driven and the blocking-style shape of a result, and
//!   the passage between the two.
//! - `stream`: the adapter that dresses a transport for the engine, the
//!   secure stream, the stream that might be secure, and the handshake.
//! - `host`: the name that a certificate is matched against.
//! - `error`: the failures of a connection attempt.
//! - `client`: the connector and the connection attempt.
//! - `runs`: runs of polls, and what holds of every run.

pub mod client;
pub mod error;
pub mod host;
pub mod poll;
pub mod runs;
pub mod stream;

pub use client::{HttpsConnecting, HttpsConnector};
pub use error::HttpsConnectorError;
pub use poll::{Poll, SyncError};
pub use stream::{
    HandshakeStep, Handshaking, MaybeHttpsStream, SyncStream, TlsStream,
};
