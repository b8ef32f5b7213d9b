//! Distributed, signed, TTL-bounded DNS record sets addressed by public key.
//!
//! The crate models the coordination core of a public-key-addressed record
//! store: a record cache with last-writer-wins semantics and TTL-based
//! freshness, a coordinator that owns the only handle to the distributed
//! hash table, and the publish / resolve / shutdown protocols built on them.

pub mod cache;
pub mod client;
pub mod coordinator;
pub mod dht;
pub mod errors;
pub mod packet;
pub mod zone;
