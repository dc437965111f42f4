//! Verified client-side logic for SWUpdate's IPC protocol.
//!
//! SWUpdate is driven over two Unix domain sockets using the binary protocol
//! of `network_ipc.h` and `progress_ipc.h`. This library holds everything of
//! that protocol that is not socket I/O:
//!
//! - [`wire`] — the C structs and their exact byte images, with proofs that
//!   reading the bytes of a message gives back that message;
//! - [`types`] — the idiomatic types (install requests, update states,
//!   progress events) and their conversion to and from the wire structs;
//! - [`control`] — the request message of each control command, and the
//!   reading of each reply;
//! - [`progress`] — the progress handshake check, the choice of progress
//!   message layout from the swupdate version, and event decoding;
//! - [`socket`] — socket paths and connection settings;
//! - [`c_abi`] — the field offsets and enumerator values of the C headers,
//!   stated as numbers and proved of the encodings.

pub mod c_abi;
pub mod codec;
pub mod control;
pub mod error;
pub mod progress;
pub mod socket;
pub mod text;
pub mod types;
pub mod wire;

pub use error::{Error, Result};
pub use socket::SocketConfig;
pub use types::{
    HwRevision, InstallRequest, ProgressEvent, RecoveryStatus, RunMode, Source, SubprocessCmd,
    SwupdateVar, UpdateState, UpdateStatus,
};
