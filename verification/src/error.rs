//! Errors of SWUpdate IPC communication.

use vstd::prelude::*;

verus! {

/// `std::io::Error`, carried opaquely by [`Error::Connection`].
#[verifier::external_type_specification]
#[verifier::external_body]
pub struct ExIoError(std::io::Error);

/// Result type for SWUpdate IPC operations.
pub type Result<T> = std::result::Result<T, Error>;

/// Errors from SWUpdate IPC communication.
#[derive(Debug)]
pub enum Error {
    /// Socket connection or I/O failure.
    Connection(std::io::Error),
    /// Protocol violation (unexpected message type, bad magic, etc.).
    Protocol(String),
    /// Server rejected the request (NACK).
    Rejected,
    /// API version mismatch between client and server.
    VersionMismatch { expected: u32, actual: u32 },
    /// Timeout waiting for response.
    Timeout(std::time::Duration),
    /// Invalid socket path.
    InvalidPath(String),
}

} // verus!
