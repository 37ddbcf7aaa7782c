use lanshare::discovery::{ingest_datagram, DiscoveryMessage, IngestOutcome, MAX_DATAGRAM_LEN};
use lanshare::peer::{Peer, PeerManager, PEER_TIMEOUT_SECONDS};

fn adv(id: u128, addr: &str, host: &str) -> DiscoveryMessage {
    DiscoveryMessage {
        peer_id: id,
        address: addr.to_string(),
        hostname: host.to_string(),
    }
}

#[test]
fn upsert_and_get() {
    let mut m = PeerManager::with_identity(1, "local".to_string());
    let p = Peer::new(7, "10.0.0.7:7879".to_string(), "seven".to_string(), 100);
    assert!(m.add_or_update_peer(p));
    let got = m.get_peer(7).expect("peer should be present");
    assert_eq!(got.address, "10.0.0.7:7879");
    assert_eq!(got.hostname, "seven");
    assert_eq!(got.last_seen, 100);
    assert!(m.get_peer(8).is_none());
}

#[test]
fn two_advertisements_same_id_yield_one_record() {
    let mut m = PeerManager::with_identity(1, "local".to_string());
    let first = Peer::new(7, "10.0.0.7:7879".to_string(), "seven".to_string(), 100);
    let second = Peer::new(7, "10.0.0.8:7879".to_string(), "seven-renamed".to_string(), 160);
    assert!(m.add_or_update_peer(first));
    assert!(!m.add_or_update_peer(second));
    assert_eq!(m.list_peers().len(), 1);
    let got = m.get_peer(7).unwrap();
    assert_eq!(got.address, "10.0.0.8:7879");
    assert_eq!(got.last_seen, 160);
}

#[test]
fn own_advertisement_leaves_table_unchanged() {
    let mut m = PeerManager::with_identity(42, "local".to_string());
    let own = Peer::new(42, "10.0.0.1:7879".to_string(), "local".to_string(), 100);
    assert!(!m.add_or_update_peer(own));
    assert_eq!(m.list_peers().len(), 0);

    let o = ingest_datagram(&mut m, 100, Some(adv(42, "10.0.0.1:7879", "local")), 100);
    assert_eq!(o, IngestOutcome::OwnAdvertisement);
    assert_eq!(m.list_peers().len(), 0);
}

#[test]
fn malformed_datagram_is_dropped_and_does_not_poison() {
    let mut m = PeerManager::with_identity(1, "local".to_string());
    let o = ingest_datagram(&mut m, 50, None, 100);
    assert_eq!(o, IngestOutcome::Invalid);
    assert_eq!(m.list_peers().len(), 0);

    // reception continues: the next valid datagram lands as usual
    let o = ingest_datagram(&mut m, 80, Some(adv(9, "10.0.0.9:7879", "nine")), 101);
    assert_eq!(o, IngestOutcome::NewPeer);
    assert_eq!(m.list_peers().len(), 1);
}

#[test]
fn oversized_datagram_is_dropped() {
    let mut m = PeerManager::with_identity(1, "local".to_string());
    let o = ingest_datagram(
        &mut m,
        MAX_DATAGRAM_LEN + 1,
        Some(adv(9, "10.0.0.9:7879", "nine")),
        100,
    );
    assert_eq!(o, IngestOutcome::Invalid);
    assert_eq!(m.list_peers().len(), 0);
}

#[test]
fn sweep_removes_only_stale_peers() {
    let mut m = PeerManager::with_identity(1, "local".to_string());
    m.add_or_update_peer(Peer::new(2, "a:1".to_string(), "a".to_string(), 100));
    m.add_or_update_peer(Peer::new(3, "b:1".to_string(), "b".to_string(), 125));
    m.add_or_update_peer(Peer::new(4, "c:1".to_string(), "c".to_string(), 129));

    // at t=130 with a 30 s threshold, only the peer from t=100 is stale
    let removed = m.cleanup_stale_peers(30, 130);
    assert_eq!(removed, vec![2]);
    let left = m.list_peers();
    assert_eq!(left.len(), 2);
    for p in &left {
        assert!(130 - p.last_seen < 30);
    }
}

#[test]
fn sweep_removes_future_stamped_peers() {
    let mut m = PeerManager::with_identity(1, "local".to_string());
    m.add_or_update_peer(Peer::new(2, "a:1".to_string(), "a".to_string(), 500));
    let removed = m.cleanup_stale_peers(30, 100);
    assert_eq!(removed, vec![2]);
    assert_eq!(m.list_peers().len(), 0);
}

#[test]
fn discovery_then_silence_then_removal() {
    // a second daemon shows up, is listed, then goes quiet and is swept
    let mut m = PeerManager::with_identity(1, "a-host".to_string());
    let o = ingest_datagram(&mut m, 120, Some(adv(2, "10.0.0.2:7879", "b-host")), 10);
    assert_eq!(o, IngestOutcome::NewPeer);
    assert!(m.list_peers().iter().any(|p| p.id == 2));

    // a refresh keeps it alive across an early sweep
    let o = ingest_datagram(&mut m, 120, Some(adv(2, "10.0.0.2:7879", "b-host")), 12);
    assert_eq!(o, IngestOutcome::KnownPeer);
    assert!(m.cleanup_stale_peers(PEER_TIMEOUT_SECONDS, 20).is_empty());

    // forty seconds of silence is beyond the 30 s threshold
    let removed = m.cleanup_stale_peers(PEER_TIMEOUT_SECONDS, 52);
    assert_eq!(removed, vec![2]);
    assert!(m.list_peers().is_empty());
}

#[test]
fn remove_peer_is_selective() {
    let mut m = PeerManager::with_identity(1, "local".to_string());
    m.add_or_update_peer(Peer::new(2, "a:1".to_string(), "a".to_string(), 100));
    m.add_or_update_peer(Peer::new(3, "b:1".to_string(), "b".to_string(), 100));
    m.remove_peer(2);
    assert!(m.get_peer(2).is_none());
    assert!(m.get_peer(3).is_some());
    m.remove_peer(99);
    assert_eq!(m.list_peers().len(), 1);
}
