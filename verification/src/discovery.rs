//! Peer discovery over UDP broadcast: what an advertisement says, and
//! what receiving one does to the peer table.
//!
//! The socket work stays outside; the listener hands each datagram's
//! length and parse result in, and the decision here is total: an
//! oversized or unparsable datagram is dropped without a trace, the
//! daemon's own advertisement is ignored, and everything else upserts
//! the peer table.

use vstd::prelude::*;

use crate::peer::{has_peer_id, index_of_id, Peer, PeerManager};

verus! {

/// Largest accepted discovery datagram, in bytes.
pub const MAX_DATAGRAM_LEN: usize = 1024;

/// One advertisement: who, where its transfer listener is, and what it
/// calls itself.
#[derive(Debug)]
pub struct DiscoveryMessage {
    pub peer_id: u128,
    pub address: String,
    pub hostname: String,
}

/// What ingesting one datagram did.
#[derive(Clone, Copy, Debug, PartialEq, Eq, Structural)]
pub enum IngestOutcome {
    /// A peer not seen before: the table grew, tell the sessions.
    NewPeer,
    /// A known peer refreshed its record.
    KnownPeer,
    /// The daemon's own advertisement: dropped.
    OwnAdvertisement,
    /// Oversized or unparsable: dropped.
    Invalid,
}

/// Feed one received datagram to the peer table. `parsed` is the
/// listener's parse of the payload, `datagram_len` the raw size on the
/// wire.
pub fn ingest_datagram(
    peers: &mut PeerManager,
    datagram_len: usize,
    parsed: Option<DiscoveryMessage>,
    now: u64,
) -> (o: IngestOutcome)
    requires
        old(peers).wf(),
    ensures
        final(peers).wf(),
        final(peers).spec_local_id() == old(peers).spec_local_id(),
        final(peers).spec_local_hostname() == old(peers).spec_local_hostname(),
        datagram_len > MAX_DATAGRAM_LEN || parsed is None ==> final(peers)@ == old(peers)@
            && o == IngestOutcome::Invalid,
        datagram_len <= MAX_DATAGRAM_LEN ==> (match parsed {
            Some(m) => {
                if m.peer_id == old(peers).spec_local_id() {
                    final(peers)@ == old(peers)@ && o == IngestOutcome::OwnAdvertisement
                } else {
                    let rec = Peer {
                        id: m.peer_id,
                        address: m.address,
                        hostname: m.hostname,
                        last_seen: now,
                    };
                    &&& o == if has_peer_id(old(peers)@, m.peer_id) {
                        IngestOutcome::KnownPeer
                    } else {
                        IngestOutcome::NewPeer
                    }
                    &&& o == IngestOutcome::NewPeer ==> final(peers)@ == old(peers)@.push(rec)
                    &&& o == IngestOutcome::KnownPeer ==> final(peers)@ == old(peers)@.update(
                        index_of_id(old(peers)@, m.peer_id),
                        rec,
                    )
                }
            },
            None => true,
        }),
{
    if datagram_len > MAX_DATAGRAM_LEN {
        return IngestOutcome::Invalid;
    }
    match parsed {
        None => IngestOutcome::Invalid,
        Some(m) => {
            if m.peer_id == peers.local_id() {
                IngestOutcome::OwnAdvertisement
            } else {
                let rec = Peer::new(m.peer_id, m.address, m.hostname, now);
                let was_new = peers.add_or_update_peer(rec);
                if was_new {
                    IngestOutcome::NewPeer
                } else {
                    IngestOutcome::KnownPeer
                }
            }
        },
    }
}

/// The advertisement this daemon broadcasts: its own identity and the
/// address of its transfer listener.
pub fn build_advertisement(peers: &PeerManager, transfer_address: String) -> (m: DiscoveryMessage)
    ensures
        m.peer_id == peers.spec_local_id(),
        m.address@ == transfer_address@,
        m.hostname@ == peers.spec_local_hostname(),
{
    DiscoveryMessage {
        peer_id: peers.local_id(),
        address: transfer_address,
        hostname: peers.local_hostname().clone(),
    }
}

} // verus!
