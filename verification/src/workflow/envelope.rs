//! Versioned envelopes: everything persisted (events, outputs, work items)
//! is wrapped with the version of its format, so that formats can evolve and
//! old data can be upgraded in place.

use vstd::prelude::*;
use crate::support::json::Json;

verus! {

/// The current envelope version.
pub const CURRENT_VERSION: u32 = 1u32;

/// A payload with the version of its format.
#[derive(Debug, Clone, PartialEq, Eq)]
pub struct Envelope<T> {
    /// Version of the envelope format.
    pub version: u32,
    /// The payload.
    pub payload: T,
}

impl<T> Envelope<T> {
    /// An envelope of the current version.
    pub fn new(payload: T) -> (r: Self)
        ensures
            r.version == CURRENT_VERSION,
            r.payload == payload,
    {
        Envelope { version: CURRENT_VERSION, payload }
    }

    /// The payload, unwrapped.
    pub fn into_payload(self) -> (r: T)
        ensures
            r == self.payload,
    {
        self.payload
    }

    /// The payload, by reference.
    pub fn payload(&self) -> (r: &T)
        ensures
            *r == self.payload,
    {
        &self.payload
    }

    /// Whether the envelope has the current version.
    pub fn is_current_version(&self) -> (r: bool)
        ensures
            r == (self.version == CURRENT_VERSION),
    {
        self.version == CURRENT_VERSION
    }
}

/// An envelope whose payload is kept as a JSON value, so that its version
/// can be read before the payload is decoded.
#[derive(Debug)]
pub struct RawEnvelope {
    /// Version of the envelope format.
    pub version: u32,
    /// The payload, not decoded yet.
    pub payload: Json,
}

impl RawEnvelope {
    /// The version of the envelope.
    pub fn version(&self) -> (r: u32)
        ensures
            r == self.version,
    {
        self.version
    }
}

} // verus!
