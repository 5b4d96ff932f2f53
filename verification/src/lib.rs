//! An OPAQUE password-authenticated key exchange bridge.
//!
//! The crate drives the four-message registration and login handshakes of the
//! OPAQUE protocol on behalf of a host application.  The caller supplies a
//! serialized cipher configuration and opaque byte blobs (protocol messages
//! and state); the crate parses and validates the configuration, dispatches to
//! a concrete cipher suite, runs the requested protocol step through the
//! `opaque_ke` collaborator, and packs the resulting byte strings into a
//! fixed-shape response envelope.
use vstd::prelude::*;

pub mod api;
pub mod config;
pub mod marshal;
pub mod parse;
pub mod protocol;
mod rng;
pub mod suite;

verus! {

/// The closed set of failure kinds surfaced to the caller.
///
/// Each variant carries a human-readable message.  The numeric code that the
/// response envelope assigns to each variant is given by [`error_code`].
#[derive(Debug)]
pub enum Error {
    /// A required argument was absent or malformed at the boundary: a caller bug.
    InvalidInput(String),
    /// The configuration failed to parse, or parsed to an unsupported
    /// combination of primitives: a deployment bug.
    InvalidConfig(String),
    /// A cryptographic deserialization or verification failure, including a
    /// wrong password at login finish: an expected, recoverable condition.
    Protocol(String),
    /// An unexpected internal fault contained at the boundary.
    InternalError(String),
}

/// The stable numeric code contracted to the caller for each error kind.
pub open spec fn error_code(e: Error) -> nat {
    match e {
        Error::InvalidInput(_) => 1,
        Error::InvalidConfig(_) => 2,
        Error::Protocol(_) => 3,
        Error::InternalError(_) => 4,
    }
}

/// The message text carried by an error, whatever its kind.
pub open spec fn error_message(e: Error) -> Seq<char> {
    match e {
        Error::InvalidInput(m) => m@,
        Error::InvalidConfig(m) => m@,
        Error::Protocol(m) => m@,
        Error::InternalError(m) => m@,
    }
}

} // verus!
