//! The bridge's error taxonomy.
//!
//! Every anomaly that arises after construction is surfaced to the consumer
//! as a `HostError` carried in the `Err` arm of the future's outcome; the
//! `kind` records where it came from and the `message` carries the host's
//! or the decoder's description.

use vstd::prelude::*;

verus! {

/// Where a `HostError` originated.
#[derive(Debug, Clone, Copy, PartialEq, Eq, Structural)]
pub enum ErrorKind {
    /// The thenable resolved, but the payload did not decode into the
    /// requested native type.
    MarshalError,
    /// The thenable rejected, but the rejection payload did not decode as a
    /// host error object.
    RejectionDecode,
    /// The thenable rejected with a decodable host error object.
    HostRejection,
    /// The callback was dropped before it fired: the host reclaimed the
    /// thenable without ever settling it.
    ChannelDropped,
}

/// An error description originating on the host side of the bridge.
#[derive(Debug)]
pub struct HostError {
    /// Where the error came from.
    pub kind: ErrorKind,
    /// The host's or the decoder's description of the error.
    pub message: String,
}

impl HostError {
    /// Builds an error of the given kind around a message.
    pub fn new(kind: ErrorKind, message: String) -> (r: HostError)
        ensures
            r.kind == kind,
            r.message == message,
    {
        HostError { kind, message }
    }
}

impl Clone for HostError {
    fn clone(&self) -> (r: Self)
        ensures
            r == *self,
    {
        HostError { kind: self.kind, message: self.message.clone() }
    }
}

/// The one construction-time failure: `Promise::wrap` was handed a host
/// value that does not satisfy the thenable protocol.
#[derive(Debug, Clone, Copy, PartialEq, Eq, Structural)]
pub enum WrapError {
    /// The wrapped value is not a thenable.
    NotAThenable,
}

} // verus!
