//! Core of a client library for a consumer quadcopter controlled over UDP.
//!
//! The library holds the protocol logic: telemetry frame parsing into a
//! snapshot, acknowledgment classification and the ack wait loop, command
//! admission (network-credential commands are refused), and the command
//! catalog that formats wire strings.  Socket and thread plumbing lives
//! outside the library and drives these functions.

use vstd::prelude::*;

pub mod ack;
pub mod client;
pub mod num;
pub mod telemetry;
pub mod text;

verus! {

/// The errors an issued command can surface.  A malformed telemetry frame
/// is never an error: the telemetry receiver drops such frames silently.
#[derive(Debug, Clone, PartialEq, Eq)]
pub enum TelloError {
    /// A socket-level bind, send or receive-setup failure, reported by the
    /// transport layer driving this library.
    Transport(String),
    /// No qualifying acknowledgment arrived within the configured window.
    AckTimeout,
    /// The drone answered with a rejection text, carried here verbatim.
    DroneRejected(Vec<u8>),
    /// An extension command was attempted while the extended-hardware
    /// capability flag is unset; nothing was sent.
    CapabilityUnavailable,
    /// The command text contains "wifi": changing network credentials is
    /// disallowed at this boundary, and nothing was sent.
    CredentialCommandRefused,
}

} // verus!
