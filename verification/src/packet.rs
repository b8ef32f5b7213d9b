//! The immutable data carried through the system: public keys, signed
//! record-set packets, and the TTL arithmetic that decides freshness.

use vstd::prelude::*;

verus! {

/// Number of bytes in a public key.
pub const PUBLIC_KEY_LEN: usize = 32;

/// An opaque, fixed-length identifier of a record owner.
pub struct PublicKey {
    pub bytes: Vec<u8>,
}

impl View for PublicKey {
    type V = Seq<u8>;

    open spec fn view(&self) -> Seq<u8> {
        self.bytes@
    }
}

impl PublicKey {
    /// A key is well formed when it has exactly [`PUBLIC_KEY_LEN`] bytes.
    pub open spec fn wf(self) -> bool {
        self.bytes@.len() == PUBLIC_KEY_LEN
    }

    pub fn new(bytes: Vec<u8>) -> (r: PublicKey)
        requires
            bytes@.len() == PUBLIC_KEY_LEN,
        ensures
            r@ == bytes@,
            r.wf(),
    {
        PublicKey { bytes }
    }

    pub fn as_bytes(&self) -> (r: &Vec<u8>)
        ensures
            r@ == self@,
    {
        &self.bytes
    }
}

impl Clone for PublicKey {
    fn clone(&self) -> (r: Self)
        ensures
            r@ == self@,
            r.wf() == self.wf(),
    {
        PublicKey { bytes: copy_bytes(&self.bytes) }
    }
}

/// Copies a byte vector element by element.
pub fn copy_bytes(v: &Vec<u8>) -> (r: Vec<u8>)
    ensures
        r@ == v@,
{
    let mut r: Vec<u8> = Vec::new();
    let mut i: usize = 0;
    while i < v.len()
        invariant
            i <= v.len(),
            r@ == v@.subrange(0, i as int),
        decreases v.len() - i,
    {
        r.push(v[i]);
        proof {
            assert(r@ =~= v@.subrange(0, i as int + 1));
        }
        i += 1;
    }
    proof {
        assert(r@ =~= v@);
    }
    r
}

/// Clamps a record-set time-to-live into the configured
/// `[min_ttl, max_ttl]` band. The lower bound is applied first: a value
/// below `min_ttl` becomes `min_ttl`, then a value above `max_ttl`
/// becomes `max_ttl`.
pub open spec fn spec_clamp_ttl(ttl: u32, min_ttl: u32, max_ttl: u32) -> u32 {
    if ttl < min_ttl {
        min_ttl
    } else if ttl > max_ttl {
        max_ttl
    } else {
        ttl
    }
}

/// The mathematical content of a signed packet.
#[verifier::ext_equal]
pub ghost struct SignedPacketView {
    pub public_key: Seq<u8>,
    pub payload: Seq<u8>,
    pub signature: Seq<u8>,
    pub timestamp: u64,
    pub ttl: u32,
    pub last_seen: u64,
}

/// How many seconds of freshness remain for `packet` at wall-clock time
/// `now`: the clamped time-to-live minus the seconds elapsed since the
/// packet was last seen locally, saturating at zero. A packet whose
/// `last_seen` lies in the future is treated as seen just now.
pub open spec fn spec_expires_in(
    packet: SignedPacketView,
    min_ttl: u32,
    max_ttl: u32,
    now: u64,
) -> u64 {
    let ttl = spec_clamp_ttl(packet.ttl, min_ttl, max_ttl) as u64;
    if now <= packet.last_seen {
        ttl
    } else if now - packet.last_seen >= ttl {
        0
    } else {
        (ttl - (now - packet.last_seen)) as u64
    }
}

/// A packet is fresh while its remaining freshness is strictly positive.
pub open spec fn spec_is_fresh(
    packet: SignedPacketView,
    min_ttl: u32,
    max_ttl: u32,
    now: u64,
) -> bool {
    spec_expires_in(packet, min_ttl, max_ttl, now) > 0
}

/// An immutable, signed DNS record set with a logical write timestamp.
///
/// Produced by an external signer; this core never inspects the key or
/// signature material, it only carries both and reasons about the
/// timestamps and the record-level time-to-live.
pub struct SignedPacket {
    /// The owning public key.
    pub public_key: PublicKey,
    /// The wire-format record-set payload.
    pub payload: Vec<u8>,
    /// The signature over the payload, opaque to this core.
    pub signature: Vec<u8>,
    /// Logical write time; newer packets carry strictly larger values.
    pub timestamp: u64,
    /// The smallest record-level time-to-live of the record set, in seconds.
    pub ttl: u32,
    /// Wall-clock time (seconds) at which this packet was last seen locally.
    pub last_seen: u64,
}

impl View for SignedPacket {
    type V = SignedPacketView;

    open spec fn view(&self) -> SignedPacketView {
        SignedPacketView {
            public_key: self.public_key@,
            payload: self.payload@,
            signature: self.signature@,
            timestamp: self.timestamp,
            ttl: self.ttl,
            last_seen: self.last_seen,
        }
    }
}

impl SignedPacket {
    pub open spec fn wf(self) -> bool {
        self.public_key.wf()
    }

    pub fn new(
        public_key: PublicKey,
        payload: Vec<u8>,
        signature: Vec<u8>,
        timestamp: u64,
        ttl: u32,
        last_seen: u64,
    ) -> (r: SignedPacket)
        ensures
            r@ == (SignedPacketView {
                public_key: public_key@,
                payload: payload@,
                signature: signature@,
                timestamp,
                ttl,
                last_seen,
            }),
            r.wf() == public_key.wf(),
    {
        SignedPacket { public_key, payload, signature, timestamp, ttl, last_seen }
    }

    pub fn public_key(&self) -> (r: &PublicKey)
        ensures
            r@ == self@.public_key,
            r.wf() == self.wf(),
    {
        &self.public_key
    }

    /// The wire-format record-set payload.
    pub fn as_bytes(&self) -> (r: &Vec<u8>)
        ensures
            r@ == self@.payload,
    {
        &self.payload
    }

    pub fn timestamp(&self) -> (r: u64)
        ensures
            r == self@.timestamp,
    {
        self.timestamp
    }

    pub fn last_seen(&self) -> (r: u64)
        ensures
            r == self@.last_seen,
    {
        self.last_seen
    }

    /// Whether this packet is still fresh at wall-clock time `now`.
    pub fn is_fresh(&self, min_ttl: u32, max_ttl: u32, now: u64) -> (r: bool)
        ensures
            r == spec_is_fresh(self@, min_ttl, max_ttl, now),
    {
        self.expires_in(min_ttl, max_ttl, now) > 0
    }

    /// Remaining freshness in seconds at wall-clock time `now`; see
    /// [`spec_expires_in`] for the exact clamping rule.
    pub fn expires_in(&self, min_ttl: u32, max_ttl: u32, now: u64) -> (r: u64)
        ensures
            r == spec_expires_in(self@, min_ttl, max_ttl, now),
    {
        let ttl_32: u32 = if self.ttl < min_ttl {
            min_ttl
        } else if self.ttl > max_ttl {
            max_ttl
        } else {
            self.ttl
        };
        let ttl: u64 = ttl_32 as u64;
        if now <= self.last_seen {
            ttl
        } else if now - self.last_seen >= ttl {
            0
        } else {
            ttl - (now - self.last_seen)
        }
    }
}

impl Clone for SignedPacket {
    fn clone(&self) -> (r: Self)
        ensures
            r@ == self@,
            r.wf() == self.wf(),
    {
        SignedPacket {
            public_key: self.public_key.clone(),
            payload: copy_bytes(&self.payload),
            signature: copy_bytes(&self.signature),
            timestamp: self.timestamp,
            ttl: self.ttl,
            last_seen: self.last_seen,
        }
    }
}

/// The local socket address of a node, as plain values.
#[derive(Clone, Copy, PartialEq, Eq, Structural, Debug)]
pub struct NodeAddr {
    /// IPv4 address as a big-endian integer.
    pub ip: u32,
    pub port: u16,
}

} // verus!
