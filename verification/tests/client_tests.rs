use pkarr::cache::PkarrCache;
use pkarr::client::{PkarrClient, ResolveStep, DEFAULT_MAXIMUM_TTL, DEFAULT_MINIMUM_TTL};
use pkarr::dht::{target_for_key, DhtPutOutcome};
use pkarr::errors::Error;
use pkarr::coordinator::{process_resolve_response, Action, Coordinator, Request};
use pkarr::packet::{NodeAddr, PublicKey, SignedPacket};

fn key(seed: u8) -> PublicKey {
    PublicKey::new(vec![seed; 32])
}

fn packet(seed: u8, payload: Vec<u8>, timestamp: u64, ttl: u32, last_seen: u64) -> SignedPacket {
    SignedPacket::new(key(seed), payload, vec![0; 64], timestamp, ttl, last_seen)
}

fn txt_payload(name: &str, text: &str, ttl: u32) -> Vec<u8> {
    let mut p = simple_dns::Packet::new_reply(0);
    let mut txt = simple_dns::rdata::TXT::new();
    txt.add_string(text).unwrap();
    p.answers.push(simple_dns::ResourceRecord::new(
        simple_dns::Name::try_from(name).unwrap(),
        simple_dns::CLASS::IN,
        ttl,
        simple_dns::rdata::RData::TXT(txt),
    ));
    p.build_bytes_vec_compressed().unwrap()
}

fn client() -> pkarr::client::AsyncPkarrClient {
    PkarrClient::new(DEFAULT_MINIMUM_TTL, DEFAULT_MAXIMUM_TTL, Some(NodeAddr { ip: 0x7f000001, port: 6881 }))
        .as_async()
}

#[test]
fn shutdown() {
    let mut a = client();

    assert_ne!(a.loca_addr(), None);

    a.shutdown().unwrap();

    assert_eq!(a.loca_addr(), None);
}

#[test]
fn publish_resolve() {
    let payload = txt_payload("foo", "bar", 30);
    let timestamp = 10;
    let signed_packet = packet(7, payload.clone(), timestamp, 30, 1000);

    let mut a = client();
    let address = a.publish_start(&signed_packet).unwrap();
    a.publish_finish(&address, DhtPutOutcome::Success(address.clone())).unwrap();

    let mut b = client();
    let resolved = b
        .resolve(&key(7), 1000, Some(signed_packet.clone()))
        .unwrap();
    assert_eq!(resolved.as_bytes(), signed_packet.as_bytes());

    let from_cache = b.resolve(&key(7), 1000, None).unwrap();
    assert_eq!(from_cache.as_bytes(), signed_packet.as_bytes());
    assert_eq!(from_cache.last_seen(), resolved.last_seen());
}

#[test]
fn publish_then_resolve_is_served_from_cache() {
    let signed_packet = packet(3, b"record-set".to_vec(), 5, 600, 1000);
    let mut a = client();
    let address = a.publish_start(&signed_packet).unwrap();
    a.publish_finish(&address, DhtPutOutcome::Success(vec![1])).unwrap();

    // The resolve decision is a cache hit: no coordinator request happens.
    match a.resolve_start(&key(3), 1000) {
        ResolveStep::Hit(p) => assert_eq!(p.as_bytes(), signed_packet.as_bytes()),
        other => panic!("expected a cache hit, got {:?}", step_name(&other)),
    }
}

fn step_name(step: &ResolveStep) -> &'static str {
    match step {
        ResolveStep::Hit(_) => "hit",
        ResolveStep::Query { .. } => "query",
        ResolveStep::ShutdownError => "shutdown",
    }
}

#[test]
fn fresh_cache_entry_never_reaches_the_coordinator() {
    let signed_packet = packet(4, b"fresh".to_vec(), 1, 3600, 1000);
    let mut a = client();
    let address = a.publish_start(&signed_packet).unwrap();
    a.publish_finish(&address, DhtPutOutcome::Success(vec![1])).unwrap();

    // Even after shutdown the fresh entry answers locally; the test
    // gateway here is the step API itself: a Hit step means zero
    // coordinator requests were issued.
    a.shutdown().unwrap();
    assert!(matches!(a.resolve_start(&key(4), 1000), ResolveStep::Hit(_)));

    // A stale entry instead asks the network while the client runs.
    let mut b = client();
    let address = b.publish_start(&packet(5, b"stale".to_vec(), 1, 300, 1000)).unwrap();
    b.publish_finish(&address, DhtPutOutcome::Success(vec![1])).unwrap();
    match b.resolve_start(&key(5), 5000) {
        ResolveStep::Query { known_timestamp, .. } => assert_eq!(known_timestamp, Some(1)),
        other => panic!("expected a query, got {}", step_name(&other)),
    }
}

#[test]
fn concurrent_publish_for_same_address_is_rejected() {
    let signed_packet = packet(9, b"x".to_vec(), 1, 600, 1000);
    let mut a = client();

    let address = a.publish_start(&signed_packet).unwrap();
    // A second publish for the same address while the first is in
    // flight is rejected, not silently dropped.
    assert!(matches!(a.publish_start(&signed_packet), Err(Error::PublishInflight)));

    // Once the first finishes, a sequential publish is admitted again.
    a.publish_finish(&address, DhtPutOutcome::Success(vec![1])).unwrap();
    assert!(a.publish_start(&signed_packet).is_ok());
}

#[test]
fn cache_put_is_last_writer_wins() {
    let mut cache = PkarrCache::new();
    let address = vec![1u8; 20];
    let newer = packet(1, b"newer".to_vec(), 10, 600, 1000);
    let older = packet(1, b"older".to_vec(), 9, 600, 2000);

    cache.put(&address, &newer);
    cache.put(&address, &older);
    let got = cache.get(&address).unwrap();
    assert_eq!(got.as_bytes(), newer.as_bytes());
    assert_eq!(got.timestamp(), 10);
    assert_eq!(cache.len(), 1);

    // An equal timestamp is discarded too.
    let equal = packet(1, b"equal".to_vec(), 10, 600, 3000);
    cache.put(&address, &equal);
    assert_eq!(cache.get(&address).unwrap().as_bytes(), newer.as_bytes());

    // A strictly newer write replaces the entry.
    let newest = packet(1, b"newest".to_vec(), 11, 600, 4000);
    cache.put(&address, &newest);
    assert_eq!(cache.get(&address).unwrap().as_bytes(), newest.as_bytes());
}

#[test]
fn calls_after_shutdown_fail_with_dht_is_shutdown() {
    let mut a = client();
    a.shutdown().unwrap();

    let signed_packet = packet(2, b"p".to_vec(), 1, 600, 1000);
    assert!(matches!(a.publish(&signed_packet, DhtPutOutcome::Success(vec![1])),
        Err(Error::DhtIsShutdown)));
    // The rejected publish still wrote the cache optimistically, so the
    // published key itself would be answered locally; a key the cache
    // does not hold shows the coordinator is gone.
    assert!(matches!(a.resolve(&key(13), 1000, None), Err(Error::DhtIsShutdown)));
    assert!(matches!(a.shutdown(), Err(Error::DhtIsShutdown)));
}

#[test]
fn publish_maps_gateway_outcomes_onto_the_error_taxonomy() {
    let signed_packet = packet(6, b"p".to_vec(), 1, 600, 1000);

    let mut a = client();
    match a.publish(&signed_packet, DhtPutOutcome::Inflight) {
        Err(e @ Error::PublishInflight) => {
            assert_eq!(e.describe(), "publish is already inflight for this key")
        }
        _ => panic!("expected an inflight error"),
    }

    let mut b = client();
    match b.publish(&signed_packet, DhtPutOutcome::QueryFailed(String::from("all rejected"))) {
        Err(Error::FailedToPublish(cause)) => assert_eq!(cause, "all rejected"),
        other => panic!("unexpected {:?}", other.is_ok()),
    }

    let mut c = client();
    match c.publish(&signed_packet, DhtPutOutcome::Other(String::from("io fault"))) {
        Err(Error::MainlineError(cause)) => assert_eq!(cause, "io fault"),
        other => panic!("unexpected {:?}", other.is_ok()),
    }

    // A reply path that closed with no outcome downgrades the call.
    let mut d = client();
    assert!(matches!(
        d.publish(&signed_packet, DhtPutOutcome::Dropped),
        Err(Error::DhtIsShutdown)
    ));
}

#[test]
fn resolve_without_any_response_is_not_found() {
    let mut a = client();
    match a.resolve(&key(8), 1000, None) {
        Err(Error::NotFound(k)) => assert_eq!(k, vec![8u8; 32]),
        _ => panic!("expected not found"),
    }
}

#[test]
fn stale_network_response_never_regresses_the_cache() {
    let mut a = client();
    let newer = packet(11, b"newer".to_vec(), 20, 300, 1000);
    let address = a.publish_start(&newer).unwrap();
    a.publish_finish(&address, DhtPutOutcome::Success(vec![1])).unwrap();

    // Entry is stale at this time, so resolve queries; the network hands
    // back an older packet, which must not win.
    let older = packet(11, b"older".to_vec(), 19, 300, 5000);
    let resolved = a.resolve(&key(11), 5000, Some(older)).unwrap();
    assert_eq!(resolved.timestamp(), 20);
    assert_eq!(resolved.as_bytes(), newer.as_bytes());
}

#[test]
fn expires_in_clamps_the_record_ttl() {
    // Record-level TTL below the lower clamp: 30 becomes 300.
    let p = packet(12, b"p".to_vec(), 1, 30, 1000);
    assert_eq!(p.expires_in(300, 86400, 1200), 100);
    assert!(p.is_fresh(300, 86400, 1200));
    assert_eq!(p.expires_in(300, 86400, 1300), 0);
    assert!(!p.is_fresh(300, 86400, 1300));
    // TTL above the upper clamp: 100000 becomes 86400.
    let q = packet(12, b"q".to_vec(), 1, 100000, 1000);
    assert_eq!(q.expires_in(300, 86400, 1000), 86400);
    // TTL inside the band stays as declared.
    let r = packet(12, b"r".to_vec(), 1, 600, 1000);
    assert_eq!(r.expires_in(300, 86400, 1000), 600);
}

#[test]
fn addresses_are_twenty_byte_digests_of_the_key() {
    let a = target_for_key(&key(1));
    let b = target_for_key(&key(2));
    assert_eq!(a.len(), 20);
    assert_eq!(b.len(), 20);
    assert_eq!(a, target_for_key(&key(1)));
    assert_ne!(a, b);
    assert_ne!(a, vec![1u8; 20]);
}

#[test]
fn coordinator_requests_become_gateway_actions() {
    let mut c = Coordinator::new();
    let address = vec![2u8; 20];
    let p = packet(2, b"p".to_vec(), 1, 600, 1000);

    match c.handle_request(Request::Publish { address: address.clone(), packet: p }) {
        Ok(Action::Put { address: a, .. }) => assert_eq!(a, address),
        _ => panic!("expected a put action"),
    }
    match c.handle_request(Request::Resolve { address: address.clone(), known_timestamp: Some(4) }) {
        Ok(Action::Get { address: a, known_timestamp }) => {
            assert_eq!(a, address);
            assert_eq!(known_timestamp, Some(4));
        }
        _ => panic!("expected a get action"),
    }
    assert!(matches!(c.handle_request(Request::Shutdown), Ok(Action::Stop)));
    assert!(matches!(
        c.handle_request(Request::Resolve { address, known_timestamp: None }),
        Err(Error::DhtIsShutdown)
    ));
}

#[test]
fn later_response_packets_refresh_the_cache_without_replying() {
    let mut cache = PkarrCache::new();
    let address = vec![3u8; 20];

    let first = packet(3, b"first".to_vec(), 5, 600, 1000);
    assert!(process_resolve_response(&mut cache, &address, &first, false));

    let newer = packet(3, b"second".to_vec(), 6, 600, 1100);
    assert!(!process_resolve_response(&mut cache, &address, &newer, true));
    assert_eq!(cache.get(&address).unwrap().timestamp(), 6);

    let stale = packet(3, b"stale".to_vec(), 4, 600, 1200);
    assert!(!process_resolve_response(&mut cache, &address, &stale, true));
    assert_eq!(cache.get(&address).unwrap().timestamp(), 6);
    assert_eq!(cache.get(&address).unwrap().as_bytes(), newer.as_bytes());
}

#[test]
fn publish_resolve_record_set() {
    // A record set {A: "127.0.0.1", TXT: "bar"}, published for one key
    // and resolved by an independent client.
    let zone = pkarr::zone::PkarrZone::read(
        String::from("@ IN A 127.0.0.1\n@ IN TXT bar\n"),
        "record.set.key",
    )
    .unwrap();
    let payload = zone.paket_bytes.clone();
    let signed_packet = packet(21, payload.clone(), 1, 3600, 1000);

    let mut a = client();
    let address = a.publish_start(&signed_packet).unwrap();
    a.publish_finish(&address, DhtPutOutcome::Success(vec![1])).unwrap();

    let mut b = client();
    let resolved = b.resolve(&key(21), 1000, Some(signed_packet.clone())).unwrap();
    assert_eq!(resolved.as_bytes(), &payload);

    // Resolving again is served from the cache: the identical packet,
    // with its locally recorded last-seen time unchanged.
    let again = b.resolve(&key(21), 1000, None).unwrap();
    assert_eq!(again.as_bytes(), &payload);
    assert_eq!(again.last_seen(), resolved.last_seen());
    assert_eq!(again.timestamp(), resolved.timestamp());
}
