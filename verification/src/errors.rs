//! The error taxonomy of the client: every failure a caller of
//! `publish`, `resolve` or `shutdown` can observe.

use vstd::prelude::*;

verus! {

/// Errors surfaced by the publish / resolve / shutdown protocols.
#[derive(Debug)]
pub enum Error {
    /// The coordinator is unreachable: `shutdown` was called, or the
    /// processing loop stopped for any other reason.
    DhtIsShutdown,
    /// A publish for the same address is already outstanding; the caller
    /// should back off and retry rather than assume failure.
    PublishInflight,
    /// All contacted nodes rejected the write; carries the underlying cause.
    FailedToPublish(String),
    /// An unexpected transport-level error from the distributed hash table.
    MainlineError(String),
    /// No packet was found for the requested public key, neither in the
    /// cache nor on the network; carries the key's bytes.
    NotFound(Vec<u8>),
}

impl Error {
    /// A short human-readable description of the error.
    pub fn describe(&self) -> (r: &'static str)
        ensures
            r@ == (match self {
                Error::DhtIsShutdown => ("dht is shutdown")@,
                Error::PublishInflight => ("publish is already inflight for this key")@,
                Error::FailedToPublish(_) => ("failed to publish")@,
                Error::MainlineError(_) => ("unexpected mainline error")@,
                Error::NotFound(_) => ("no packet was found")@,
            }),
    {
        match self {
            Error::DhtIsShutdown => "dht is shutdown",
            Error::PublishInflight => "publish is already inflight for this key",
            Error::FailedToPublish(_) => "failed to publish",
            Error::MainlineError(_) => "unexpected mainline error",
            Error::NotFound(_) => "no packet was found",
        }
    }
}

} // verus!
