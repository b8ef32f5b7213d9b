//! The gateway boundary to the distributed hash table.
//!
//! The table itself is an external service: this module derives lookup
//! addresses through it and fixes, as plain data, the outcomes a `put`
//! against it can have. The network calls themselves are driven by the
//! unverified runtime around the library, which feeds every outcome back
//! into the verified protocol functions.

use vstd::prelude::*;

use crate::packet::PublicKey;

verus! {

/// Number of bytes in a table address.
pub const ADDRESS_LEN: usize = 20;

/// The address the table derives from a public key (no salt): a pure
/// function of the key bytes.
pub uninterp spec fn address_of(key: Seq<u8>) -> Seq<u8>;

/// Relies on `mainline::MutableItem::target_from_key`: the lookup target
/// is the SHA-1 digest of the key bytes, a 20-byte value depending on the
/// key alone.
#[verifier::external_body]
pub fn target_for_key(key: &PublicKey) -> (r: Vec<u8>)
    requires
        key.wf(),
    ensures
        r@ == address_of(key@),
        r@.len() == ADDRESS_LEN,
{
    let mut raw: [u8; 32] = [0; 32];
    raw.copy_from_slice(key.bytes.as_slice());
    mainline::MutableItem::target_from_key(&raw, &None).to_vec()
}

/// Every outcome a table-level `put` can report, as plain data.
///
/// The gateway's own error enum is opaque to verification, so the runtime
/// translates it variant for variant into this type before handing it to
/// the verified protocol functions.
#[derive(Debug)]
pub enum DhtPutOutcome {
    /// The write was stored; carries the identifier the table returned.
    Success(Vec<u8>),
    /// The table itself reported that a put for this key is already
    /// in flight.
    Inflight,
    /// All contacted nodes responded with a query error; carries the cause.
    QueryFailed(String),
    /// Any other table error; carries the cause.
    Other(String),
    /// The reply path closed before any outcome arrived: the gateway
    /// was torn down while the publish was outstanding.
    Dropped,
}

} // verus!
