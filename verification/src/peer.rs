//! The peer table: every sibling daemon this one has heard from.
//!
//! Peers are identified by a 128-bit id carried in their advertisements.
//! Timestamps are plain seconds on the daemon's clock, handed in by the
//! caller, so every operation here is a total function of its arguments.

use vstd::prelude::*;

use crate::platform::{fresh_uuid_v4, machine_hostname};

verus! {

/// Seconds of silence after which a peer is considered stale.
pub const PEER_TIMEOUT_SECONDS: u64 = 30;

/// One known peer: its advertised identity, the `host:port` of its
/// transfer listener, its hostname, and when it was last heard.
#[derive(Clone, Debug)]
pub struct Peer {
    pub id: u128,
    pub address: String,
    pub hostname: String,
    pub last_seen: u64,
}

impl Peer {
    /// A record fresh from an advertisement received at `now`.
    pub fn new(id: u128, address: String, hostname: String, now: u64) -> (p: Peer)
        ensures
            p == (Peer { id, address, hostname, last_seen: now }),
    {
        Peer { id, address, hostname, last_seen: now }
    }

    /// Refresh the liveness stamp.
    pub fn update_seen(&mut self, now: u64)
        ensures
            final(self).id == old(self).id,
            final(self).address == old(self).address,
            final(self).hostname == old(self).hostname,
            final(self).last_seen == now,
    {
        self.last_seen = now;
    }

    /// A value-equal copy (field by field, so the equality is proved).
    pub fn duplicate(&self) -> (p: Peer)
        ensures
            p == *self,
    {
        Peer {
            id: self.id,
            address: self.address.clone(),
            hostname: self.hostname.clone(),
            last_seen: self.last_seen,
        }
    }
}

/// Does `s` hold a peer with this id?
pub open spec fn has_peer_id(s: Seq<Peer>, id: u128) -> bool {
    exists|i: int| 0 <= i < s.len() && s[i].id == id
}

proof fn lemma_has_peer_id_push(s: Seq<Peer>, p: Peer, id: u128)
    ensures
        has_peer_id(s, id) ==> has_peer_id(s.push(p), id),
        has_peer_id(s.push(p), id) ==> has_peer_id(s, id) || p.id == id,
        p.id == id ==> has_peer_id(s.push(p), id),
{
    if has_peer_id(s, id) {
        let k = choose|k: int| 0 <= k < s.len() && s[k].id == id;
        assert(s.push(p)[k].id == id);
    }
    if has_peer_id(s.push(p), id) {
        let k = choose|k: int| 0 <= k < s.push(p).len() && s.push(p)[k].id == id;
        if k < s.len() {
            assert(s[k].id == id);
        }
    }
    if p.id == id {
        assert(s.push(p)[s.len() as int].id == id);
    }
}

proof fn lemma_contains_push(s: Seq<u128>, x: u128, y: u128)
    ensures
        s.contains(y) ==> s.push(x).contains(y),
        s.push(x).contains(x),
{
    if s.contains(y) {
        let k = choose|k: int| 0 <= k < s.len() && s[k] == y;
        assert(s.push(x)[k] == y);
    }
    assert(s.push(x)[s.len() as int] == x);
}

/// The index of the peer with this id, if any.
pub open spec fn index_of_id(s: Seq<Peer>, id: u128) -> int {
    choose|i: int| 0 <= i < s.len() && s[i].id == id
}

/// The set of peers known to this daemon, plus its own identity.
pub struct PeerManager {
    peers: Vec<Peer>,
    local_id: u128,
    local_hostname: String,
}

impl PeerManager {
    /// No two entries share an id, and the local id never appears:
    /// all insertions go through [`Self::add_or_update_peer`].
    pub open spec fn wf(self) -> bool {
        &&& forall|i: int, j: int|
            0 <= i < j < self@.len() ==> (#[trigger] self@[i]).id != (#[trigger] self@[j]).id
        &&& forall|i: int| 0 <= i < self@.len() ==> (#[trigger] self@[i]).id != self.spec_local_id()
    }

    pub closed spec fn view(self) -> Seq<Peer> {
        self.peers@
    }

    pub closed spec fn spec_local_id(self) -> u128 {
        self.local_id
    }

    pub closed spec fn spec_local_hostname(self) -> Seq<char> {
        self.local_hostname@
    }

    /// A manager with a freshly drawn identity and this machine's
    /// hostname, knowing no peers yet.
    pub fn new() -> (m: PeerManager)
        ensures
            m.wf(),
            m@.len() == 0,
    {
        PeerManager {
            peers: Vec::new(),
            local_id: fresh_uuid_v4(),
            local_hostname: machine_hostname(),
        }
    }

    /// A manager with the identity fixed by the caller.
    pub fn with_identity(local_id: u128, local_hostname: String) -> (m: PeerManager)
        ensures
            m.wf(),
            m@.len() == 0,
            m.spec_local_id() == local_id,
            m.spec_local_hostname() == local_hostname@,
    {
        PeerManager { peers: Vec::new(), local_id, local_hostname }
    }

    pub fn local_id(&self) -> (id: u128)
        ensures
            id == self.spec_local_id(),
    {
        self.local_id
    }

    pub fn local_hostname(&self) -> (h: &String)
        ensures
            h@ == self.spec_local_hostname(),
    {
        &self.local_hostname
    }

    /// The index of the entry bearing this id, if one exists.
    fn find_index(&self, peer_id: u128) -> (r: Option<usize>)
        ensures
            match r {
                Some(i) => i < self@.len() && self@[i as int].id == peer_id,
                None => !has_peer_id(self@, peer_id),
            },
    {
        let mut i: usize = 0;
        while i < self.peers.len()
            invariant
                i <= self.peers@.len(),
                forall|j: int| 0 <= j < i ==> self.peers@[j].id != peer_id,
            decreases self.peers@.len() - i,
        {
            if self.peers[i].id == peer_id {
                return Some(i);
            }
            i += 1;
        }
        None
    }

    /// Insert or refresh a peer record. An advertisement carrying the
    /// local id is a no-op, so the daemon never lists itself.
    /// Returns whether the peer was new.
    pub fn add_or_update_peer(&mut self, peer: Peer) -> (was_new: bool)
        requires
            old(self).wf(),
        ensures
            final(self).wf(),
            final(self).spec_local_id() == old(self).spec_local_id(),
            final(self).spec_local_hostname() == old(self).spec_local_hostname(),
            peer.id == old(self).spec_local_id() ==> final(self)@ == old(self)@ && !was_new,
            peer.id != old(self).spec_local_id() ==> {
                &&& was_new == !has_peer_id(old(self)@, peer.id)
                &&& has_peer_id(final(self)@, peer.id)
                &&& final(self)@[index_of_id(final(self)@, peer.id)] == peer
                &&& (was_new ==> final(self)@ == old(self)@.push(peer))
                &&& (!was_new ==> final(self)@
                    == old(self)@.update(index_of_id(old(self)@, peer.id), peer))
            },
    {
        if peer.id == self.local_id {
            return false;
        }
        match self.find_index(peer.id) {
            Some(i) => {
                proof {
                    let s = self.peers@;
                    assert(s[index_of_id(s, peer.id)].id == peer.id);
                    assert(index_of_id(s, peer.id) == i as int);
                }
                self.peers.set(i, peer);
                proof {
                    let s = self.peers@;
                    assert(s[i as int].id == peer.id);
                    assert(index_of_id(s, peer.id) == i as int);
                }
                false
            },
            None => {
                self.peers.push(peer);
                proof {
                    let s = self.peers@;
                    assert(s[s.len() - 1].id == peer.id);
                    assert(index_of_id(s, peer.id) == s.len() - 1);
                }
                true
            },
        }
    }

    /// Drop the peer with this id, if present.
    pub fn remove_peer(&mut self, peer_id: u128)
        requires
            old(self).wf(),
        ensures
            final(self).wf(),
            final(self).spec_local_id() == old(self).spec_local_id(),
            final(self).spec_local_hostname() == old(self).spec_local_hostname(),
            !has_peer_id(final(self)@, peer_id),
            forall|id: u128| id != peer_id
                ==> (has_peer_id(final(self)@, id) == has_peer_id(old(self)@, id)),
            !has_peer_id(old(self)@, peer_id) ==> final(self)@ == old(self)@,
            has_peer_id(old(self)@, peer_id)
                ==> final(self)@ == old(self)@.remove(index_of_id(old(self)@, peer_id)),
    {
        match self.find_index(peer_id) {
            Some(i) => {
                proof {
                    let s = self.peers@;
                    assert(s[index_of_id(s, peer_id)].id == peer_id);
                    assert(index_of_id(s, peer_id) == i as int);
                }
                self.peers.remove(i);
                proof {
                    let olds = old(self).peers@;
                    let news = self.peers@;
                    assert forall|id: u128| id != peer_id && has_peer_id(olds, id)
                        implies has_peer_id(news, id) by {
                        let j = index_of_id(olds, id);
                        assert(olds[j].id == id);
                        if j < i as int {
                            assert(news[j].id == id);
                        } else {
                            assert(news[j - 1].id == id);
                        }
                    }
                    assert forall|id: u128| has_peer_id(news, id)
                        implies has_peer_id(olds, id) by {
                        let j = index_of_id(news, id);
                        if j < i as int {
                            assert(olds[j].id == id);
                        } else {
                            assert(olds[j + 1].id == id);
                        }
                    }
                    assert forall|id: u128| #[trigger] has_peer_id(news, id) implies id != peer_id by {
                        let j = index_of_id(news, id);
                        if j < i as int {
                            assert(olds[j].id == id);
                        } else {
                            assert(olds[j + 1].id == id);
                        }
                    }
                }
            },
            None => {},
        }
    }

    /// The record for this id, if known.
    pub fn get_peer(&self, peer_id: u128) -> (r: Option<&Peer>)
        requires
            self.wf(),
        ensures
            match r {
                Some(p) => has_peer_id(self@, peer_id) && *p == self@[index_of_id(self@, peer_id)],
                None => !has_peer_id(self@, peer_id),
            },
    {
        match self.find_index(peer_id) {
            Some(i) => {
                proof {
                    let s = self.peers@;
                    assert(s[index_of_id(s, peer_id)].id == peer_id);
                    assert(index_of_id(s, peer_id) == i as int);
                }
                Some(&self.peers[i])
            },
            None => None,
        }
    }

    /// A snapshot of every known peer.
    pub fn list_peers(&self) -> (r: Vec<Peer>)
        ensures
            r@ == self@,
    {
        let mut out: Vec<Peer> = Vec::new();
        let mut i: usize = 0;
        while i < self.peers.len()
            invariant
                i <= self.peers@.len(),
                out@ == self.peers@.subrange(0, i as int),
            decreases self.peers@.len() - i,
        {
            out.push(self.peers[i].duplicate());
            i += 1;
        }
        proof {
            assert(out@ =~= self@);
        }
        out
    }

    /// How many peers are known.
    pub fn peer_count(&self) -> (n: usize)
        ensures
            n == self@.len(),
    {
        self.peers.len()
    }

    /// Evict every peer not heard from within `timeout_secs` of `now`
    /// (a stamp in the future counts as stale too), and return the ids
    /// evicted. A surviving peer was seen strictly less than
    /// `timeout_secs` ago.
    pub fn cleanup_stale_peers(&mut self, timeout_secs: u64, now: u64) -> (removed: Vec<u128>)
        requires
            old(self).wf(),
        ensures
            final(self).wf(),
            final(self).spec_local_id() == old(self).spec_local_id(),
            final(self).spec_local_hostname() == old(self).spec_local_hostname(),
            // survivors were alive, in order, and nothing else survives
            forall|i: int| 0 <= i < final(self)@.len()
                ==> peer_alive(#[trigger] final(self)@[i], timeout_secs, now),
            forall|i: int| 0 <= i < old(self)@.len() && peer_alive(#[trigger] old(self)@[i], timeout_secs, now)
                ==> has_peer_id(final(self)@, old(self)@[i].id),
            forall|i: int| 0 <= i < final(self)@.len()
                ==> has_peer_id(old(self)@, (#[trigger] final(self)@[i]).id),
            // the removed list names exactly the evicted peers
            removed@.len() + final(self)@.len() == old(self)@.len(),
            forall|i: int| 0 <= i < old(self)@.len() && !peer_alive(#[trigger] old(self)@[i], timeout_secs, now)
                ==> removed@.contains(old(self)@[i].id),
            forall|k: int| 0 <= k < removed@.len()
                ==> has_peer_id(old(self)@, #[trigger] removed@[k])
                    && !has_peer_id(final(self)@, removed@[k]),
    {
        let mut kept: Vec<Peer> = Vec::new();
        let mut removed: Vec<u128> = Vec::new();
        let ghost olds = self.peers@;
        let mut i: usize = 0;
        while i < self.peers.len()
            invariant
                self.peers@ == olds,
                i <= olds.len(),
                kept@.len() + removed@.len() == i,
                forall|k: int| 0 <= k < kept@.len()
                    ==> peer_alive(#[trigger] kept@[k], timeout_secs, now),
                forall|j: int| 0 <= j < i && peer_alive(#[trigger] olds[j], timeout_secs, now)
                    ==> has_peer_id(kept@, olds[j].id),
                forall|k: int| 0 <= k < kept@.len()
                    ==> has_peer_id(olds, (#[trigger] kept@[k]).id),
                forall|j: int| 0 <= j < i && !peer_alive(#[trigger] olds[j], timeout_secs, now)
                    ==> removed@.contains(olds[j].id),
                forall|k: int| 0 <= k < removed@.len()
                    ==> has_peer_id(olds, #[trigger] removed@[k]) && !has_peer_id(kept@, removed@[k]),
                forall|k1: int, k2: int| 0 <= k1 < k2 < kept@.len()
                    ==> (#[trigger] kept@[k1]).id != (#[trigger] kept@[k2]).id,
                forall|k: int| 0 <= k < kept@.len()
                    ==> (#[trigger] kept@[k]).id != self.spec_local_id(),
                self.wf(),
                forall|j: int, k: int| 0 <= j < olds.len() && 0 <= k < kept@.len()
                    && (#[trigger] olds[j]).id == (#[trigger] kept@[k]).id ==> j < i,
                forall|j: int, k: int| 0 <= j < olds.len() && 0 <= k < removed@.len()
                    && (#[trigger] olds[j]).id == #[trigger] removed@[k] ==> j < i,
            decreases olds.len() - i,
        {
            let p = self.peers[i].duplicate();
            let alive = p.last_seen <= now && now - p.last_seen < timeout_secs;
            let ghost kept0 = kept@;
            let ghost removed0 = removed@;
            proof {
                assert(alive == peer_alive(olds[i as int], timeout_secs, now));
                // entries seen so far bear ids of earlier positions, so none is p.id
                assert forall|k: int| 0 <= k < kept0.len()
                    implies (#[trigger] kept0[k]).id != p.id by {
                    let j = choose|j: int| 0 <= j < olds.len() && olds[j].id == kept0[k].id;
                    assert(j < i);
                }
                assert forall|k: int| 0 <= k < removed0.len()
                    implies #[trigger] removed0[k] != p.id by {
                    let j = choose|j: int| 0 <= j < olds.len() && olds[j].id == removed0[k];
                    assert(j < i);
                }
            }
            if alive {
                kept.push(p);
                proof {
                    assert forall|j: int| 0 <= j <= i && peer_alive(#[trigger] olds[j], timeout_secs, now)
                        implies has_peer_id(kept@, olds[j].id) by {
                        if j < i {
                            lemma_has_peer_id_push(kept0, p, olds[j].id);
                        } else {
                            lemma_has_peer_id_push(kept0, p, p.id);
                        }
                    }
                    assert forall|k: int| 0 <= k < kept@.len()
                        implies has_peer_id(olds, (#[trigger] kept@[k]).id) by {
                        if k < kept0.len() {
                            assert(kept@[k] == kept0[k]);
                        } else {
                            assert(kept@[k] == p);
                            assert(olds[i as int].id == p.id);
                        }
                    }
                    assert forall|k: int| 0 <= k < removed@.len()
                        implies !has_peer_id(kept@, #[trigger] removed@[k]) by {
                        lemma_has_peer_id_push(kept0, p, removed@[k]);
                    }
                    assert forall|k: int| 0 <= k < kept@.len()
                        implies (#[trigger] kept@[k]).id != self.spec_local_id() by {
                        if k < kept0.len() {
                            assert(kept@[k] == kept0[k]);
                        } else {
                            assert(kept@[k] == p);
                            assert(self@[i as int] == olds[i as int]);
                            assert(self@[i as int].id != self.spec_local_id());
                        }
                    }
                    assert forall|j: int, k: int| 0 <= j < olds.len() && 0 <= k < kept@.len()
                        && (#[trigger] olds[j]).id == (#[trigger] kept@[k]).id implies j <= i by {
                        if k < kept0.len() {
                            assert(kept@[k] == kept0[k]);
                        } else {
                            assert(kept@[k] == p);
                            assert(olds[i as int].id == p.id);
                            if j != i {
                                assert(self@[j] == olds[j]);
                                assert(self@[i as int] == olds[i as int]);
                                if j < i {
                                    assert(self@[j].id != self@[i as int].id);
                                } else {
                                    assert(self@[i as int].id != self@[j].id);
                                }
                            }
                        }
                    }
                }
            } else {
                removed.push(p.id);
                proof {
                    assert(has_peer_id(olds, p.id)) by {
                        assert(olds[i as int].id == p.id);
                    }
                    assert forall|j: int| 0 <= j <= i && !peer_alive(#[trigger] olds[j], timeout_secs, now)
                        implies removed@.contains(olds[j].id) by {
                        if j < i {
                            lemma_contains_push(removed0, p.id, olds[j].id);
                        } else {
                            lemma_contains_push(removed0, p.id, p.id);
                        }
                    }
                    assert forall|k: int| 0 <= k < removed@.len()
                        implies has_peer_id(olds, #[trigger] removed@[k])
                            && !has_peer_id(kept@, removed@[k]) by {
                        if k < removed0.len() {
                            assert(removed@[k] == removed0[k]);
                        } else {
                            assert(removed@[k] == p.id);
                        }
                    }
                    // an id names a unique position, so p.id points at i
                    assert forall|j: int, k: int| 0 <= j < olds.len() && 0 <= k < removed@.len()
                        && (#[trigger] olds[j]).id == #[trigger] removed@[k] implies j <= i by {
                        if k < removed0.len() {
                            assert(removed@[k] == removed0[k]);
                        } else {
                            assert(removed@[k] == p.id);
                            assert(olds[i as int].id == p.id);
                            if j != i {
                                assert(self@[j] == olds[j]);
                                assert(self@[i as int] == olds[i as int]);
                                if j < i {
                                    assert(self@[j].id != self@[i as int].id);
                                } else {
                                    assert(self@[i as int].id != self@[j].id);
                                }
                            }
                        }
                    }
                }
            }
            i += 1;
        }
        self.peers = kept;
        removed
    }
}

/// A peer seen strictly less than `timeout_secs` before `now` (and not
/// stamped in the future) survives a sweep.
pub open spec fn peer_alive(p: Peer, timeout_secs: u64, now: u64) -> bool {
    p.last_seen <= now && now - p.last_seen < timeout_secs
}

/// After a sweep at `now` with threshold `t`, no surviving peer has been
/// silent for `t` seconds or longer.
pub proof fn lemma_sweep_leaves_only_live(m: PeerManager, t: u64, now: u64)
    requires
        forall|i: int| 0 <= i < m@.len() ==> peer_alive(#[trigger] m@[i], t, now),
    ensures
        forall|i: int| 0 <= i < m@.len()
            ==> now - (#[trigger] m@[i]).last_seen < t,
{
}

} // verus!
