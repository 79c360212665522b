//! Error values returned by construction-time operations.
//!
//! Runtime conditions (timeouts, filtered frames, exhausted retries) are not
//! errors here: readers and writers report them through their result enums so
//! callers can loop without unwinding.

use vstd::prelude::*;

verus! {

/// Why a construction-time operation was refused.
#[derive(Debug, Clone, PartialEq, Eq)]
pub enum TransportError {
    /// The socket URI does not match the accepted grammar, names an unknown
    /// role or direction, or carries a source on a reader role.
    InvalidUri { message: String },
    /// A configuration builder was given a value outside its documented range,
    /// or `build` was called before a URI was supplied.
    InvalidConfig { field: String, reason: String },
    /// Preparing the filesystem for a local-IPC endpoint failed.
    IpcPrep { message: String },
    /// The underlying socket could not be created or wired up.
    SocketCreate { message: String },
}

impl TransportError {
    /// A short description of the error, for callers that wish to log it.
    pub fn describe(&self) -> (r: String)
        ensures
            match self {
                TransportError::InvalidUri { message } => r@ == message@,
                TransportError::InvalidConfig { field: _, reason } => r@ == reason@,
                TransportError::IpcPrep { message } => r@ == message@,
                TransportError::SocketCreate { message } => r@ == message@,
            },
    {
        match self {
            TransportError::InvalidUri { message } => message.clone(),
            TransportError::InvalidConfig { field: _, reason } => reason.clone(),
            TransportError::IpcPrep { message } => message.clone(),
            TransportError::SocketCreate { message } => message.clone(),
        }
    }
}

} // verus!
