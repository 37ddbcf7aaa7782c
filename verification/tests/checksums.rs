use lanshare::broadcast::BroadcastProgress;
use lanshare::hashing::checksum_of_bytes;
use lanshare::peer::PeerManager;
use lanshare::platform::get_mime_type;
use lanshare::protocol::ServerMessage;

#[test]
fn known_sha256_digests_in_lowercase_hex() {
    // the empty input and "abc" have well-known digests
    assert_eq!(
        checksum_of_bytes(&Vec::new()),
        "e3b0c44298fc1c149afbf4c8996fb92427ae41e4649b934ca495991b7852b855"
    );
    assert_eq!(
        checksum_of_bytes(&b"abc".to_vec()),
        "ba7816bf8f01cfea414140de5dae2223b00361a396177a9cb410ff61f20015ad"
    );
}

#[test]
fn mime_guesses_come_from_the_extension() {
    assert_eq!(get_mime_type("notes.txt").as_deref(), Some("text/plain"));
    assert_eq!(get_mime_type("x.json").as_deref(), Some("application/json"));
    assert_eq!(get_mime_type("no-extension").as_deref(), None);
}

#[test]
fn fresh_identities_look_like_version_four() {
    let a = PeerManager::new().local_id();
    let b = PeerManager::new().local_id();
    assert_ne!(a, b);
    // the version nibble of a v4 UUID is 4
    assert_eq!((a >> 76) & 0xF, 4);
    assert_eq!((b >> 76) & 0xF, 4);
}

#[test]
fn the_daemon_has_a_hostname() {
    assert!(!PeerManager::new().local_hostname().is_empty());
}

#[test]
fn fanout_counts_every_peer_once() {
    let mut st = BroadcastProgress::new(77, 3);
    let mut completed_seen = Vec::new();
    for ok in [true, false, true] {
        st.record_outcome(ok);
        match st.progress_message() {
            ServerMessage::BroadcastTransferProgress { transfer_id, completed_peers, total_peers } => {
                assert_eq!(transfer_id, 77);
                assert_eq!(total_peers, 3);
                completed_seen.push(completed_peers);
            }
            other => panic!("progress notices carry the tally, got {other:?}"),
        }
    }
    assert_eq!(completed_seen, vec![1, 2, 3]);
    assert!(st.is_done());
    match st.complete_message() {
        ServerMessage::BroadcastTransferComplete { transfer_id, successful_peers, failed_peers } => {
            assert_eq!(transfer_id, 77);
            assert_eq!(successful_peers, 2);
            assert_eq!(failed_peers, 1);
            assert_eq!(successful_peers + failed_peers, 3);
        }
        other => panic!("the fan-out closes with a tally, got {other:?}"),
    }
}
