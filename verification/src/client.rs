//! The client facade: the public publish / resolve / shutdown protocols
//! composing the record cache and the coordinator.
//!
//! The network itself is driven by the unverified runtime: each protocol
//! is split into a decision step (what to ask the gateway, answered from
//! the cache when possible) and a completion step that takes the
//! gateway's response as a plain value. The composed operations take
//! that response as an argument and are verified for every value of it.

use vstd::prelude::*;

use crate::cache::{spec_lww, PkarrCache};
use crate::coordinator::{
    lemma_remove_first_push, spec_begin_result, spec_begin_state, spec_finish_state,
    spec_put_result, spec_shutdown_result, Coordinator,
};
use crate::dht::{address_of, target_for_key, DhtPutOutcome};
use crate::errors::Error;
use crate::packet::{
    copy_bytes, spec_is_fresh, NodeAddr, PublicKey, SignedPacket, SignedPacketView,
};

verus! {

/// Default lower clamp for record time-to-live values, in seconds.
pub const DEFAULT_MINIMUM_TTL: u32 = 300;

/// Default upper clamp for record time-to-live values, in seconds.
pub const DEFAULT_MAXIMUM_TTL: u32 = 86400;

/// A client of the distributed record store: the record cache, the
/// coordinator owning the gateway, the TTL clamping bounds, and the
/// local socket address while the node is up.
pub struct PkarrClient {
    pub cache: PkarrCache,
    pub coordinator: Coordinator,
    pub minimum_ttl: u32,
    pub maximum_ttl: u32,
    pub address: Option<NodeAddr>,
}

impl PkarrClient {
    pub open spec fn wf(self) -> bool {
        self.cache.wf()
    }

    pub fn new(minimum_ttl: u32, maximum_ttl: u32, address: Option<NodeAddr>) -> (r: PkarrClient)
        ensures
            r.wf(),
            r.coordinator@.running,
            r.coordinator@.inflight.len() == 0,
            forall|a: Seq<u8>| r.cache.spec_get(a) is None,
            r.minimum_ttl == minimum_ttl,
            r.maximum_ttl == maximum_ttl,
            r.address == address,
    {
        PkarrClient {
            cache: PkarrCache::new(),
            coordinator: Coordinator::new(),
            minimum_ttl,
            maximum_ttl,
            address,
        }
    }

    /// Wraps the client in its asynchronous facade.
    pub fn as_async(self) -> (r: AsyncPkarrClient)
        ensures
            r.0 == self,
    {
        AsyncPkarrClient(self)
    }
}

/// The first step of a resolve: what the cache decides.
pub enum ResolveStep {
    /// A fresh packet was found in the cache; no network access happens.
    Hit(SignedPacket),
    /// The cache missed or is stale: ask the coordinator to look the
    /// address up, telling the nodes which timestamp is already known.
    Query { address: Vec<u8>, known_timestamp: Option<u64> },
    /// The coordinator is unreachable and the cache cannot answer.
    ShutdownError,
}

/// The mathematical content of a resolve decision.
pub ghost enum ResolveDecision {
    Hit(SignedPacketView),
    Query(Option<u64>),
    Shutdown,
}

/// What a resolve does, given the cached packet for the address, whether
/// the coordinator still runs, the TTL bounds and the current time: a
/// fresh cached packet is returned at once (never a network request); a
/// missing or stale entry becomes a query carrying the stale entry's
/// timestamp; without a running coordinator the call fails.
pub open spec fn spec_resolve_decision(
    cached: Option<SignedPacketView>,
    running: bool,
    min_ttl: u32,
    max_ttl: u32,
    now: u64,
) -> ResolveDecision {
    match cached {
        Some(p) => if spec_is_fresh(p, min_ttl, max_ttl, now) {
            ResolveDecision::Hit(p)
        } else if running {
            ResolveDecision::Query(Some(p.timestamp))
        } else {
            ResolveDecision::Shutdown
        },
        None => if running {
            ResolveDecision::Query(None)
        } else {
            ResolveDecision::Shutdown
        },
    }
}

/// The resolve decision a client takes for a public key at time `now`.
pub open spec fn spec_client_resolve_decision(
    c: PkarrClient,
    key: Seq<u8>,
    now: u64,
) -> ResolveDecision {
    spec_resolve_decision(
        c.cache.spec_get(address_of(key)),
        c.coordinator@.running,
        c.minimum_ttl,
        c.maximum_ttl,
        now,
    )
}

/// Asynchronous facade of [`PkarrClient`].
pub struct AsyncPkarrClient(pub PkarrClient);

impl AsyncPkarrClient {
    /// The local socket address of the node, or `None` once it is
    /// shut down.
    pub fn loca_addr(&self) -> (r: Option<NodeAddr>)
        ensures
            r == self.0.address,
    {
        self.0.address
    }

    /// Read access to the internal record cache.
    pub fn cache(&self) -> (r: &PkarrCache)
        ensures
            *r == self.0.cache,
    {
        &self.0.cache
    }

    /// Starts a publish: optimistically writes the packet into the cache
    /// under the address of its public key (so local resolves see it even
    /// before the network confirms), then asks the coordinator to admit
    /// the publish. Returns the address to put, or the error owed to the
    /// caller: [`Error::DhtIsShutdown`] when the coordinator is
    /// unreachable, [`Error::PublishInflight`] when a publish for the
    /// same address is already outstanding. The cache write happens in
    /// every case.
    pub fn publish_start(&mut self, signed_packet: &SignedPacket) -> (r: Result<Vec<u8>, Error>)
        requires
            old(self).0.wf(),
            signed_packet.wf(),
        ensures
            final(self).0.wf(),
            ({
                let a = address_of(signed_packet@.public_key);
                let pre = old(self).0;
                let post = final(self).0;
                &&& post.cache.spec_get(a) == Some(
                    spec_lww(pre.cache.spec_get(a), signed_packet@),
                )
                &&& forall|b: Seq<u8>| b != a ==> post.cache.spec_get(b) == pre.cache.spec_get(b)
                &&& post.coordinator@ == spec_begin_state(pre.coordinator@, a)
                &&& post.minimum_ttl == pre.minimum_ttl
                &&& post.maximum_ttl == pre.maximum_ttl
                &&& post.address == pre.address
                &&& (r matches Ok(v) ==> v@ == a && spec_begin_result(pre.coordinator@, a)
                    == Ok::<(), Error>(()))
                &&& (r matches Err(e) ==> Err::<(), Error>(e) == spec_begin_result(
                    pre.coordinator@,
                    a,
                ))
            }),
    {
        let address = target_for_key(signed_packet.public_key());
        self.0.cache.put(&address, signed_packet);
        match self.0.coordinator.begin_publish(&address) {
            Ok(_) => Ok(address),
            Err(e) => Err(e),
        }
    }

    /// Completes a publish: releases the in-flight reservation for the
    /// address and maps the gateway's outcome onto the error taxonomy;
    /// see [`spec_put_result`].
    pub fn publish_finish(&mut self, address: &Vec<u8>, outcome: DhtPutOutcome) -> (r: Result<
        (),
        Error,
    >)
        ensures
            final(self).0.coordinator@ == spec_finish_state(old(self).0.coordinator@, address@),
            final(self).0.cache == old(self).0.cache,
            final(self).0.minimum_ttl == old(self).0.minimum_ttl,
            final(self).0.maximum_ttl == old(self).0.maximum_ttl,
            final(self).0.address == old(self).0.address,
            r == (match spec_put_result(outcome) {
                Ok(_) => Ok::<(), Error>(()),
                Err(e) => Err::<(), Error>(e),
            }),
    {
        match self.0.coordinator.finish_publish(address, outcome) {
            Ok(_) => Ok(()),
            Err(e) => Err(e),
        }
    }

    /// The whole publish protocol, with the gateway's reply handed in as
    /// a plain value: the packet is written to the cache, the publish is
    /// admitted or rejected, and an admitted publish maps `outcome` onto
    /// the error taxonomy. The unverified runtime performs the actual
    /// network put between [`Self::publish_start`] and
    /// [`Self::publish_finish`]; this composition fixes what every such
    /// run returns.
    pub fn publish(&mut self, signed_packet: &SignedPacket, outcome: DhtPutOutcome) -> (r: Result<
        (),
        Error,
    >)
        requires
            old(self).0.wf(),
            signed_packet.wf(),
        ensures
            final(self).0.wf(),
            ({
                let a = address_of(signed_packet@.public_key);
                let pre = old(self).0;
                &&& final(self).0.cache.spec_get(a) == Some(
                    spec_lww(pre.cache.spec_get(a), signed_packet@),
                )
                &&& forall|b: Seq<u8>|
                    b != a ==> final(self).0.cache.spec_get(b) == pre.cache.spec_get(b)
                &&& (!pre.coordinator@.running ==> r == Err::<(), Error>(Error::DhtIsShutdown))
                &&& (pre.coordinator@.running && pre.coordinator@.inflight.contains(a) ==> r
                    == Err::<(), Error>(Error::PublishInflight))
                &&& (pre.coordinator@.running && !pre.coordinator@.inflight.contains(a) ==> r == (
                match spec_put_result(outcome) {
                    Ok(_) => Ok::<(), Error>(()),
                    Err(e) => Err::<(), Error>(e),
                }))
                &&& final(self).0.coordinator@ == pre.coordinator@
                &&& final(self).0.minimum_ttl == pre.minimum_ttl
                &&& final(self).0.maximum_ttl == pre.maximum_ttl
                &&& final(self).0.address == pre.address
            }),
    {
        let address = match self.publish_start(signed_packet) {
            Ok(address) => address,
            Err(e) => {
                return Err(e);
            },
        };
        let r = self.publish_finish(&address, outcome);
        proof {
            let a = address_of(signed_packet@.public_key);
            let pre = old(self).0;
            if pre.coordinator@.running && !pre.coordinator@.inflight.contains(a) {
                lemma_remove_first_push(pre.coordinator@.inflight, a);
                assert(self.0.coordinator@ =~= pre.coordinator@);
            }
        }
        r
    }

    /// The first step of a resolve: answers from the cache when it holds
    /// a fresh packet (no coordinator request is made in that case, even
    /// if the entry is about to expire), and otherwise asks for a lookup
    /// carrying the timestamp already known; see [`spec_resolve_decision`].
    pub fn resolve_start(&self, public_key: &PublicKey, now: u64) -> (r: ResolveStep)
        requires
            self.0.wf(),
            public_key.wf(),
        ensures
            ({
                let d = spec_client_resolve_decision(self.0, public_key@, now);
                match r {
                    ResolveStep::Hit(p) => d == ResolveDecision::Hit(p@),
                    ResolveStep::Query { address, known_timestamp } => address@ == address_of(
                        public_key@,
                    ) && d == ResolveDecision::Query(known_timestamp),
                    ResolveStep::ShutdownError => d == ResolveDecision::Shutdown,
                }
            }),
    {
        let address = target_for_key(public_key);
        match self.0.cache.get(&address) {
            Some(p) => {
                if p.is_fresh(self.0.minimum_ttl, self.0.maximum_ttl, now) {
                    ResolveStep::Hit(p)
                } else {
                    let known = Some(p.timestamp());
                    if self.0.coordinator.running {
                        ResolveStep::Query { address, known_timestamp: known }
                    } else {
                        ResolveStep::ShutdownError
                    }
                }
            },
            None => {
                if self.0.coordinator.running {
                    ResolveStep::Query { address, known_timestamp: None }
                } else {
                    ResolveStep::ShutdownError
                }
            },
        }
    }

    /// Completes a resolve after a lookup: no response means the key is
    /// unknown everywhere and the call fails with [`Error::NotFound`];
    /// a response is written into the cache (last-writer-wins) and the
    /// retained packet is returned, so a successful resolve never returns
    /// a packet older than one previously cached for the address.
    pub fn resolve_finish(
        &mut self,
        public_key: &PublicKey,
        address: &Vec<u8>,
        first_response: Option<SignedPacket>,
    ) -> (r: Result<SignedPacket, Error>)
        requires
            old(self).0.wf(),
        ensures
            final(self).0.wf(),
            first_response is None ==> final(self).0 == old(self).0 && (r matches Err(e)
                && e matches Error::NotFound(k) && k@ == public_key@),
            first_response matches Some(p) ==> {
                &&& final(self).0.cache.spec_get(address@) == Some(
                    spec_lww(old(self).0.cache.spec_get(address@), p@),
                )
                &&& forall|b: Seq<u8>|
                    b != address@ ==> final(self).0.cache.spec_get(b) == old(
                        self,
                    ).0.cache.spec_get(b)
                &&& (r matches Ok(q) && q@ == spec_lww(old(self).0.cache.spec_get(address@), p@))
                &&& (old(self).0.cache.spec_get(address@) matches Some(c) ==> (r matches Ok(q)
                    && q@.timestamp >= c.timestamp))
            },
            final(self).0.coordinator == old(self).0.coordinator,
            final(self).0.minimum_ttl == old(self).0.minimum_ttl,
            final(self).0.maximum_ttl == old(self).0.maximum_ttl,
            final(self).0.address == old(self).0.address,
    {
        match first_response {
            None => Err(Error::NotFound(copy_bytes(public_key.as_bytes()))),
            Some(p) => {
                self.0.cache.put(address, &p);
                match self.0.cache.get(address) {
                    Some(q) => Ok(q),
                    None => {
                        proof {
                            assert(false);
                        }
                        Err(Error::DhtIsShutdown)
                    },
                }
            },
        }
    }

    /// The whole resolve protocol, with the first packet the network
    /// found handed in as a plain value (or `None` when the lookup
    /// yielded nothing): a fresh cached packet is returned without any
    /// network involvement; otherwise the lookup response decides, as in
    /// [`Self::resolve_finish`]. After the first response the runtime
    /// keeps feeding later packets of the same lookup into
    /// [`crate::coordinator::process_resolve_response`], which refreshes
    /// the cache without replying to anyone.
    pub fn resolve(
        &mut self,
        public_key: &PublicKey,
        now: u64,
        first_response: Option<SignedPacket>,
    ) -> (r: Result<SignedPacket, Error>)
        requires
            old(self).0.wf(),
            public_key.wf(),
        ensures
            final(self).0.wf(),
            final(self).0.coordinator == old(self).0.coordinator,
            final(self).0.minimum_ttl == old(self).0.minimum_ttl,
            final(self).0.maximum_ttl == old(self).0.maximum_ttl,
            final(self).0.address == old(self).0.address,
            ({
                let a = address_of(public_key@);
                let d = spec_client_resolve_decision(old(self).0, public_key@, now);
                match d {
                    ResolveDecision::Hit(pv) => final(self).0 == old(self).0 && (r matches Ok(q)
                        && q@ == pv),
                    ResolveDecision::Query(_) => {
                        &&& (first_response is None ==> final(self).0 == old(self).0 && (
                        r matches Err(e) && e matches Error::NotFound(k) && k@ == public_key@))
                        &&& (first_response matches Some(p) ==> {
                            &&& final(self).0.cache.spec_get(a) == Some(
                                spec_lww(old(self).0.cache.spec_get(a), p@),
                            )
                            &&& forall|b: Seq<u8>|
                                b != a ==> final(self).0.cache.spec_get(b) == old(
                                    self,
                                ).0.cache.spec_get(b)
                            &&& (r matches Ok(q) && q@ == spec_lww(
                                old(self).0.cache.spec_get(a),
                                p@,
                            ))
                        })
                    },
                    ResolveDecision::Shutdown => final(self).0 == old(self).0 && r == Err::<
                        SignedPacket,
                        Error,
                    >(Error::DhtIsShutdown),
                }
            }),
    {
        match self.resolve_start(public_key, now) {
            ResolveStep::Hit(p) => Ok(p),
            ResolveStep::Query { address, known_timestamp: _ } => self.resolve_finish(
                public_key,
                &address,
                first_response,
            ),
            ResolveStep::ShutdownError => Err(Error::DhtIsShutdown),
        }
    }

    /// Shuts the coordinator down and marks the node's local address as
    /// gone. Only the first shutdown succeeds: any later call finds the
    /// coordinator unreachable and fails with [`Error::DhtIsShutdown`]
    /// instead of hanging.
    pub fn shutdown(&mut self) -> (r: Result<(), Error>)
        ensures
            r == spec_shutdown_result(old(self).0.coordinator@),
            !final(self).0.coordinator@.running,
            final(self).0.coordinator@.inflight == old(self).0.coordinator@.inflight,
            final(self).0.cache == old(self).0.cache,
            final(self).0.minimum_ttl == old(self).0.minimum_ttl,
            final(self).0.maximum_ttl == old(self).0.maximum_ttl,
            old(self).0.coordinator@.running ==> final(self).0.address is None,
            !old(self).0.coordinator@.running ==> final(self).0.address == old(self).0.address,
    {
        match self.0.coordinator.handle_shutdown() {
            Ok(_) => {
                self.0.address = None;
                Ok(())
            },
            Err(e) => Err(e),
        }
    }
}

/// Publishing and then immediately resolving the same key is served from
/// the cache, with the very packet that was published, whatever the
/// coordinator answered: the optimistic cache write of a publish makes
/// the packet the cached one, and a fresh cached packet resolves to a
/// hit without any coordinator request. `pre` and `post` are the client
/// states around the publish, related as `publish_start` ensures; the
/// packet must still be fresh at `now` and strictly newer than whatever
/// the cache held for its address before.
pub proof fn lemma_publish_then_resolve_hits_cache(
    pre: PkarrClient,
    post: PkarrClient,
    packet: SignedPacketView,
    now: u64,
)
    requires
        post.cache.spec_get(address_of(packet.public_key)) == Some(
            spec_lww(pre.cache.spec_get(address_of(packet.public_key)), packet),
        ),
        post.minimum_ttl == pre.minimum_ttl,
        post.maximum_ttl == pre.maximum_ttl,
        spec_is_fresh(packet, pre.minimum_ttl, pre.maximum_ttl, now),
        pre.cache.spec_get(address_of(packet.public_key)) matches Some(c) ==> c.timestamp
            < packet.timestamp,
    ensures
        spec_client_resolve_decision(post, packet.public_key, now) == ResolveDecision::Hit(packet),
{
}

/// A fresh cache entry answers a resolve by itself: the decision is a
/// hit whatever the coordinator's state, so no request reaches it.
pub proof fn lemma_fresh_cache_entry_never_queries(
    cached: SignedPacketView,
    running: bool,
    min_ttl: u32,
    max_ttl: u32,
    now: u64,
)
    requires
        spec_is_fresh(cached, min_ttl, max_ttl, now),
    ensures
        spec_resolve_decision(Some(cached), running, min_ttl, max_ttl, now)
            == ResolveDecision::Hit(cached),
{
}

/// Once the coordinator has stopped, every later call is owed
/// [`Error::DhtIsShutdown`]: a publish is rejected before touching the
/// gateway, a shutdown finds the coordinator already gone, and a resolve
/// that the cache cannot answer with a fresh packet fails the same way.
pub proof fn lemma_shutdown_rejects_later_calls(c: PkarrClient, key: Seq<u8>, now: u64)
    requires
        !c.coordinator@.running,
    ensures
        forall|a: Seq<u8>| #[trigger] spec_begin_result(c.coordinator@, a) == Err::<(), Error>(
            Error::DhtIsShutdown,
        ),
        spec_shutdown_result(c.coordinator@) == Err::<(), Error>(Error::DhtIsShutdown),
        (match c.cache.spec_get(address_of(key)) {
            Some(p) => !spec_is_fresh(p, c.minimum_ttl, c.maximum_ttl, now),
            None => true,
        }) ==> spec_client_resolve_decision(c, key, now) == ResolveDecision::Shutdown,
{
}

} // verus!
