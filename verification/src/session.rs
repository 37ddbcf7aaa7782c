//! The WebSocket session layer: which clients are connected, and what
//! each command they send does.
//!
//! A session is one WebSocket connection, bound at upgrade time to the
//! daemon's own peer id. The dispatcher here turns one client command
//! into its synchronous reply and the side effects the runtime must
//! carry out (spawning sends, delivering frames); it performs no I/O
//! itself, so every decision is checked.

use vstd::prelude::*;

use crate::history::{
    cancel_rel, entries_sorted_newest_first, entry_of, fresh_record, has_tid, index_of_tid,
    pause_rel, resume_rel, TransferHistory, TransferRecord,
};
use crate::peer::{has_peer_id, index_of_id, Peer, PeerManager};
use crate::platform::mime_of;
use crate::protocol::{ClientMessage, PeerInfo, ServerMessage, TransferDirection};

verus! {

/// One connected UI client: its session id and the peer id it is
/// bound to.
#[derive(Clone, Copy, Debug)]
pub struct Connection {
    pub client_id: u128,
    pub peer_id: u128,
}

/// Does `s` hold a connection for this client?
pub open spec fn has_client(s: Seq<Connection>, client_id: u128) -> bool {
    exists|i: int| 0 <= i < s.len() && s[i].client_id == client_id
}

/// The index of this client's connection, if any.
pub open spec fn index_of_client(s: Seq<Connection>, client_id: u128) -> int {
    choose|i: int| 0 <= i < s.len() && s[i].client_id == client_id
}

/// Should a chat addressed to `target_peer` reach this connection?
/// It does when the connection is bound to the target peer, and the
/// sender always hears its own message.
pub open spec fn is_chat_target(c: Connection, sender_client: u128, target_peer: u128) -> bool {
    c.peer_id == target_peer || c.client_id == sender_client
}

/// The clients a directed chat is delivered to, in table order.
pub open spec fn spec_chat_targets(
    s: Seq<Connection>,
    sender_client: u128,
    target_peer: u128,
) -> Seq<u128>
    decreases s.len(),
{
    if s.len() == 0 {
        Seq::empty()
    } else {
        let rest = spec_chat_targets(s.drop_last(), sender_client, target_peer);
        if is_chat_target(s.last(), sender_client, target_peer) {
            rest.push(s.last().client_id)
        } else {
            rest
        }
    }
}

/// The table of live WebSocket sessions.
pub struct ConnectionTable {
    entries: Vec<Connection>,
}

impl ConnectionTable {
    pub closed spec fn view(self) -> Seq<Connection> {
        self.entries@
    }

    /// Each client id appears at most once.
    pub open spec fn wf(self) -> bool {
        forall|i: int, j: int| 0 <= i < j < self@.len()
            ==> (#[trigger] self@[i]).client_id != (#[trigger] self@[j]).client_id
    }

    /// An empty table.
    pub fn new() -> (t: ConnectionTable)
        ensures
            t.wf(),
            t@.len() == 0,
    {
        ConnectionTable { entries: Vec::new() }
    }

    /// The index of this client's entry, if one exists.
    fn find_index(&self, client_id: u128) -> (r: Option<usize>)
        ensures
            match r {
                Some(i) => i < self@.len() && self@[i as int].client_id == client_id,
                None => !has_client(self@, client_id),
            },
    {
        let mut i: usize = 0;
        while i < self.entries.len()
            invariant
                i <= self.entries@.len(),
                forall|j: int| 0 <= j < i ==> (#[trigger] self.entries@[j]).client_id != client_id,
            decreases self.entries@.len() - i,
        {
            if self.entries[i].client_id == client_id {
                return Some(i);
            }
            i += 1;
        }
        None
    }

    /// Register a session at upgrade time, or rebind an existing one.
    pub fn add_connection(&mut self, client_id: u128, peer_id: u128)
        requires
            old(self).wf(),
        ensures
            final(self).wf(),
            !has_client(old(self)@, client_id) ==> final(self)@ == old(self)@.push(
                Connection { client_id, peer_id },
            ),
            has_client(old(self)@, client_id) ==> final(self)@ == old(self)@.update(
                index_of_client(old(self)@, client_id),
                Connection { client_id, peer_id },
            ),
    {
        let entry = Connection { client_id, peer_id };
        match self.find_index(client_id) {
            Some(i) => {
                proof {
                    let s = self@;
                    assert(has_client(s, client_id)) by {
                        assert(s[i as int].client_id == client_id);
                    }
                    let k = index_of_client(s, client_id);
                    assert(s[k].client_id == client_id);
                    if k < i as int {
                        assert(s[k].client_id != s[i as int].client_id);
                    } else if k > i as int {
                        assert(s[i as int].client_id != s[k].client_id);
                    }
                }
                self.entries.set(i, entry);
            },
            None => {
                self.entries.push(entry);
                proof {
                    let olds = old(self)@;
                    let news = self@;
                    assert forall|a: int, b: int| 0 <= a < b < news.len()
                        implies (#[trigger] news[a]).client_id
                            != (#[trigger] news[b]).client_id by {
                        if b < olds.len() {
                            assert(news[a] == olds[a] && news[b] == olds[b]);
                        } else {
                            assert(news[b] == entry);
                            assert(news[a] == olds[a]);
                        }
                    }
                }
            },
        }
    }

    /// Drop a session on close or send failure.
    pub fn remove_connection(&mut self, client_id: u128)
        requires
            old(self).wf(),
        ensures
            final(self).wf(),
            !has_client(old(self)@, client_id) ==> final(self)@ == old(self)@,
            has_client(old(self)@, client_id) ==> final(self)@ == old(self)@.remove(
                index_of_client(old(self)@, client_id),
            ),
            !has_client(final(self)@, client_id),
    {
        match self.find_index(client_id) {
            Some(i) => {
                proof {
                    let s = self@;
                    assert(has_client(s, client_id)) by {
                        assert(s[i as int].client_id == client_id);
                    }
                    let k = index_of_client(s, client_id);
                    assert(s[k].client_id == client_id);
                    if k < i as int {
                        assert(s[k].client_id != s[i as int].client_id);
                    } else if k > i as int {
                        assert(s[i as int].client_id != s[k].client_id);
                    }
                }
                self.entries.remove(i);
                proof {
                    let olds = old(self)@;
                    let news = self@;
                    assert forall|a: int| 0 <= a < news.len()
                        implies (#[trigger] news[a]).client_id != client_id by {
                        let a0 = if a < i as int { a } else { a + 1 };
                        assert(news[a] == olds[a0]);
                        if a0 < i as int {
                            assert(olds[a0].client_id != olds[i as int].client_id);
                        } else {
                            assert(olds[i as int].client_id != olds[a0].client_id);
                        }
                    }
                }
            },
            None => {},
        }
    }

    /// The peer id this client is bound to, if it is connected.
    pub fn lookup_peer(&self, client_id: u128) -> (r: Option<u128>)
        requires
            self.wf(),
        ensures
            match r {
                Some(p) => has_client(self@, client_id)
                    && self@[index_of_client(self@, client_id)].peer_id == p,
                None => !has_client(self@, client_id),
            },
    {
        match self.find_index(client_id) {
            Some(i) => {
                proof {
                    let s = self@;
                    assert(has_client(s, client_id)) by {
                        assert(s[i as int].client_id == client_id);
                    }
                    let k = index_of_client(s, client_id);
                    assert(s[k].client_id == client_id);
                    if k < i as int {
                        assert(s[k].client_id != s[i as int].client_id);
                    } else if k > i as int {
                        assert(s[i as int].client_id != s[k].client_id);
                    }
                }
                Some(self.entries[i].peer_id)
            },
            None => None,
        }
    }

    /// Every connected client, in table order.
    pub fn client_ids(&self) -> (r: Vec<u128>)
        ensures
            r@ == self@.map_values(|c: Connection| c.client_id),
    {
        let mut out: Vec<u128> = Vec::new();
        let mut i: usize = 0;
        while i < self.entries.len()
            invariant
                i <= self.entries@.len(),
                out@ == self.entries@.subrange(0, i as int).map_values(
                    |c: Connection| c.client_id,
                ),
            decreases self.entries@.len() - i,
        {
            out.push(self.entries[i].client_id);
            proof {
                assert(out@ =~= self.entries@.subrange(0, i + 1).map_values(
                    |c: Connection| c.client_id,
                ));
            }
            i += 1;
        }
        proof {
            assert(self.entries@.subrange(0, self.entries@.len() as int) =~= self.entries@);
        }
        out
    }

    /// The peer id a chat from this client is attributed to: the
    /// session's binding, or the daemon's own id for an unknown
    /// session.
    pub open spec fn spec_chat_sender(self, client_id: u128, local_id: u128) -> u128 {
        if has_client(self@, client_id) {
            self@[index_of_client(self@, client_id)].peer_id
        } else {
            local_id
        }
    }

    /// The clients a chat addressed to `target_peer` is delivered to:
    /// every session bound to that peer, plus the sender's own.
    pub fn chat_targets(&self, sender_client: u128, target_peer: u128) -> (r: Vec<u128>)
        ensures
            r@ == spec_chat_targets(self@, sender_client, target_peer),
    {
        let mut out: Vec<u128> = Vec::new();
        let mut i: usize = 0;
        while i < self.entries.len()
            invariant
                i <= self.entries@.len(),
                out@ == spec_chat_targets(
                    self.entries@.subrange(0, i as int),
                    sender_client,
                    target_peer,
                ),
            decreases self.entries@.len() - i,
        {
            let c = self.entries[i];
            let ghost pre = self.entries@.subrange(0, i as int);
            let ghost cur = self.entries@.subrange(0, i + 1);
            if c.peer_id == target_peer || c.client_id == sender_client {
                out.push(c.client_id);
            }
            proof {
                assert(cur.drop_last() =~= pre);
                assert(cur.last() == c);
                assert(out@ == spec_chat_targets(cur, sender_client, target_peer));
            }
            i += 1;
        }
        proof {
            assert(self.entries@.subrange(0, self.entries@.len() as int) =~= self.entries@);
        }
        out
    }
}

// ---------------------------------------------------------------------
// Command dispatch
// ---------------------------------------------------------------------

/// The facts about the outside world a command needs, gathered by the
/// runtime before dispatch: what the file system says about the named
/// path, a freshly drawn id, and the clock.
pub struct CommandEnv {
    /// The named path exists.
    pub file_exists: bool,
    /// The named path is a regular file.
    pub is_file: bool,
    /// Its size in bytes.
    pub file_size: u64,
    /// Its base name (`unknown` when the path has none).
    pub filename: String,
    /// Its precomputed checksum, for commands that advertise one up
    /// front.
    pub file_checksum: Option<String>,
    /// A freshly drawn UUID for whatever the command creates.
    pub fresh_id: u128,
    /// Seconds on the daemon's clock.
    pub now: u64,
}

/// What the runtime must carry out after a dispatch: the work that
/// leaves this process.
#[derive(Debug)]
pub enum SessionEffect {
    /// Stream one file to one peer under the given transfer id.
    StartSend {
        transfer_id: u128,
        peer_id: u128,
        peer_address: String,
        file_path: String,
    },
    /// Fan one file out to these peers, one at a time, reporting to
    /// the initiating client.
    StartBroadcast {
        broadcast_id: u128,
        peers: Vec<Peer>,
        filename: String,
        file_path: String,
        file_size: u64,
        file_checksum: Option<String>,
    },
    /// Deliver a frame to one client.
    SendToClient {
        client_id: u128,
        message: ServerMessage,
    },
    /// Deliver one frame to each of these clients.
    SendToClients {
        client_ids: Vec<u128>,
        message: ServerMessage,
    },
    /// Deliver a frame to every connected client.
    BroadcastToAll {
        message: ServerMessage,
    },
}

/// A dispatch's result: the synchronous reply, if the command has one,
/// and the effects the runtime owes.
pub struct DispatchOutcome {
    pub reply: Option<ServerMessage>,
    pub effects: Vec<SessionEffect>,
}

/// An outcome that only answers: no effects, and the one reply is an
/// error carrying this text.
pub open spec fn error_reply(out: DispatchOutcome, text: Seq<char>) -> bool {
    &&& out.effects@.len() == 0
    &&& out.reply matches Some(r) && (r matches ServerMessage::Error { message }
        && message@ == text)
}

/// `GetPeers`: a snapshot of the peer table, nothing else.
pub open spec fn get_peers_post(peers: PeerManager, out: DispatchOutcome) -> bool {
    &&& out.effects@.len() == 0
    &&& out.reply matches Some(r) && (r matches ServerMessage::PeersList { peers: pl } && {
        &&& pl@.len() == peers@.len()
        &&& forall|i: int| 0 <= i < pl@.len() ==> {
            &&& (#[trigger] pl@[i]).id == peers@[i].id
            &&& pl@[i].address@ == peers@[i].address@
            &&& pl@[i].hostname@ == peers@[i].hostname@
        }
    })
}

/// `SendFile`: validate, register the transfer, echo the request, and
/// owe the runtime the actual send.
pub open spec fn send_file_post(
    peers: PeerManager,
    h0: TransferHistory,
    h1: TransferHistory,
    peer_id: u128,
    file_path: String,
    env: CommandEnv,
    out: DispatchOutcome,
) -> bool {
    if !has_peer_id(peers@, peer_id) {
        h1 == h0 && error_reply(out, "Peer not found"@)
    } else if !(env.file_exists && env.is_file) {
        h1 == h0 && error_reply(out, "File not found or is not a file"@)
    } else {
        let peer = peers@[index_of_id(peers@, peer_id)];
        &&& h1.active_view() == h0.active_view().push(
            fresh_record(
                env.fresh_id,
                Some(peer_id),
                peer.hostname,
                env.filename,
                file_path,
                env.file_size,
                TransferDirection::Sent,
                env.now,
            ),
        )
        &&& h1.completed_view() == h0.completed_view()
        &&& out.reply matches Some(r) && (r matches ServerMessage::FileTransferRequest {
            transfer_id,
            peer_id: rp,
            filename,
            file_path: rfp,
            file_size,
            file_checksum,
            mime_type,
        } && {
            &&& transfer_id == env.fresh_id
            &&& rp == peer_id
            &&& filename@ == env.filename@
            &&& rfp@ == file_path@
            &&& file_size == env.file_size
            &&& file_checksum is None
            &&& (mime_type matches Some(mt) ==> mime_of(env.filename@) matches Some(ms)
                && mt@ == ms)
            &&& (mime_type is None ==> mime_of(env.filename@) is None)
        })
        &&& out.effects@.len() == 1
        &&& out.effects@[0] matches SessionEffect::StartSend {
            transfer_id,
            peer_id: ep,
            peer_address,
            file_path: efp,
        } && transfer_id == env.fresh_id && ep == peer_id && peer_address@ == peer.address@
            && efp@ == file_path@
    }
}

/// `BroadcastFile`: validate, announce the fan-out to the initiating
/// client, and owe the runtime the sequential sends.
pub open spec fn broadcast_file_post(
    peers: PeerManager,
    h0: TransferHistory,
    h1: TransferHistory,
    client_id: u128,
    file_path: String,
    env: CommandEnv,
    out: DispatchOutcome,
) -> bool {
    if !env.file_exists {
        h1 == h0 && error_reply(out, "File not found"@)
    } else if peers@.len() == 0 {
        h1 == h0 && error_reply(out, "No peers available for broadcast"@)
    } else {
        &&& h1 == h0
        &&& out.reply is None
        &&& out.effects@.len() == 2
        &&& out.effects@[0] matches SessionEffect::SendToClient { client_id: c, message }
            && c == client_id && (message matches ServerMessage::BroadcastTransferStart {
            transfer_id,
            filename,
            file_path: sfp,
            file_size,
            total_peers,
            file_checksum,
            mime_type,
        } && {
            &&& transfer_id == env.fresh_id
            &&& filename@ == env.filename@
            &&& sfp@ == file_path@
            &&& file_size == env.file_size
            &&& total_peers == peers@.len()
            &&& file_checksum == env.file_checksum
            &&& (mime_type matches Some(mt) ==> mime_of(env.filename@) matches Some(ms)
                && mt@ == ms)
            &&& (mime_type is None ==> mime_of(env.filename@) is None)
        })
        &&& out.effects@[1] matches SessionEffect::StartBroadcast {
            broadcast_id,
            peers: targets,
            filename,
            file_path: bfp,
            file_size,
            file_checksum,
        } && {
            &&& broadcast_id == env.fresh_id
            &&& targets@ == peers@
            &&& filename@ == env.filename@
            &&& bfp@ == file_path@
            &&& file_size == env.file_size
            &&& file_checksum == env.file_checksum
        }
    }
}

/// `SendChat`: stamp the message with the sender's binding and the
/// clock, and deliver it to the addressee's sessions (plus the
/// sender) or to everyone.
pub open spec fn send_chat_post(
    peers: PeerManager,
    conns: ConnectionTable,
    h0: TransferHistory,
    h1: TransferHistory,
    client_id: u128,
    to_peer: Option<u128>,
    text: String,
    env: CommandEnv,
    out: DispatchOutcome,
) -> bool {
    let chat_ok = |m: ServerMessage| m matches ServerMessage::ChatMessage {
        from_peer_id,
        from_hostname,
        to_peer_id,
        message,
        timestamp,
    } && {
        &&& from_peer_id == conns.spec_chat_sender(client_id, peers.spec_local_id())
        &&& from_hostname@ == peers.spec_local_hostname()
        &&& to_peer_id == to_peer
        &&& message@ == text@
        &&& timestamp == env.now
    };
    &&& h1 == h0
    &&& out.reply is None
    &&& out.effects@.len() == 1
    &&& (match to_peer {
        Some(target) => out.effects@[0] matches SessionEffect::SendToClients {
            client_ids,
            message,
        } && client_ids@ == spec_chat_targets(conns@, client_id, target) && chat_ok(message),
        None => out.effects@[0] matches SessionEffect::BroadcastToAll { message } && chat_ok(
            message,
        ),
    })
}

/// `GetTransferStats`: a report from the active record, or an error
/// for an id not actively transferring.
pub open spec fn transfer_stats_post(
    h0: TransferHistory,
    transfer_id: u128,
    out: DispatchOutcome,
) -> bool {
    if has_tid(h0.active_view(), transfer_id) {
        let rec = h0.active_view()[index_of_tid(h0.active_view(), transfer_id)];
        &&& out.effects@.len() == 0
        &&& out.reply matches Some(r) && (r matches ServerMessage::TransferStats {
            transfer_id: t,
            status,
            progress,
            total,
            speed_bytes_per_sec,
            eta_seconds,
            start_time,
        } && {
            &&& t == transfer_id
            &&& status == rec.status
            &&& progress == 0u64
            &&& total == rec.file_size
            &&& speed_bytes_per_sec == rec.speed_bytes_per_sec
            &&& eta_seconds is None
            &&& start_time == rec.start_time
        })
    } else {
        error_reply(out, "Transfer not found"@)
    }
}

/// What one client command does: the registry transition, the reply,
/// and the effects owed, case by case.
pub open spec fn dispatch_post(
    peers: PeerManager,
    conns: ConnectionTable,
    h0: TransferHistory,
    h1: TransferHistory,
    client_id: u128,
    msg: ClientMessage,
    env: CommandEnv,
    out: DispatchOutcome,
) -> bool {
    match msg {
        ClientMessage::GetPeers => h1 == h0 && get_peers_post(peers, out),
        ClientMessage::GetLocalInfo => {
            &&& h1 == h0
            &&& out.effects@.len() == 0
            &&& out.reply matches Some(r) && (r matches ServerMessage::LocalInfo {
                peer_id,
                hostname,
            } && peer_id == peers.spec_local_id() && hostname@ == peers.spec_local_hostname())
        },
        ClientMessage::Ping => {
            &&& h1 == h0
            &&& out.effects@.len() == 0
            &&& out.reply == Some(ServerMessage::Pong)
        },
        ClientMessage::SendFile { peer_id, file_path } => send_file_post(
            peers,
            h0,
            h1,
            peer_id,
            file_path,
            env,
            out,
        ),
        ClientMessage::BroadcastFile { file_path } => broadcast_file_post(
            peers,
            h0,
            h1,
            client_id,
            file_path,
            env,
            out,
        ),
        ClientMessage::SendChat { peer_id, message } => send_chat_post(
            peers,
            conns,
            h0,
            h1,
            client_id,
            peer_id,
            message,
            env,
            out,
        ),
        ClientMessage::GetTransferHistory => {
            &&& h1 == h0
            &&& out.effects@.len() == 0
            &&& out.reply matches Some(r) && (r matches ServerMessage::TransferHistory {
                transfers,
            } && transfers@.to_multiset() == (h0.active_view().map_values(
                |rec: TransferRecord| entry_of(rec),
            ) + h0.completed_view().map_values(|rec: TransferRecord| entry_of(rec))).to_multiset()
                && entries_sorted_newest_first(transfers@))
        },
        ClientMessage::GetTransferStats { transfer_id } => h1 == h0 && transfer_stats_post(
            h0,
            transfer_id,
            out,
        ),
        ClientMessage::CancelTransfer { transfer_id } => {
            &&& cancel_rel(h0, h1, transfer_id, env.now)
            &&& out.effects@.len() == 0
            &&& out.reply == Some(ServerMessage::TransferCancelled { transfer_id })
        },
        ClientMessage::PauseTransfer { transfer_id } => {
            &&& pause_rel(h0, h1, transfer_id)
            &&& out.effects@.len() == 0
            &&& out.reply == Some(ServerMessage::TransferPaused { transfer_id })
        },
        ClientMessage::ResumeTransfer { transfer_id } => {
            &&& resume_rel(h0, h1, transfer_id)
            &&& out.effects@.len() == 0
            &&& out.reply == Some(ServerMessage::TransferResumed { transfer_id })
        },
        ClientMessage::SendDirectory { .. } => h1 == h0 && error_reply(
            out,
            "Directory transfer not yet implemented. Please archive the directory first."@,
        ),
        ClientMessage::BroadcastDirectory { .. } => h1 == h0 && error_reply(
            out,
            "Directory broadcast not yet implemented. Please archive the directory first."@,
        ),
    }
}

/// Answer one client command. The command's only lasting trace inside
/// the daemon is the registry transition; everything that must leave
/// the process is handed back as effects.
pub fn handle_client_message(
    peers: &PeerManager,
    conns: &ConnectionTable,
    history: &mut TransferHistory,
    client_id: u128,
    msg: ClientMessage,
    env: &CommandEnv,
) -> (out: DispatchOutcome)
    requires
        peers.wf(),
        conns.wf(),
        old(history).wf(),
        msg matches ClientMessage::SendFile { .. } ==> !old(history).spec_contains(env.fresh_id),
    ensures
        final(history).wf(),
        dispatch_post(*peers, *conns, *old(history), *final(history), client_id, msg, *env, out),
{
    match msg {
        ClientMessage::GetPeers => {
            let list = peers.list_peers();
            let mut infos: Vec<PeerInfo> = Vec::new();
            let mut i: usize = 0;
            while i < list.len()
                invariant
                    i <= list@.len(),
                    list@ == peers@,
                    infos@.len() == i,
                    forall|k: int| 0 <= k < i ==> {
                        &&& (#[trigger] infos@[k]).id == peers@[k].id
                        &&& infos@[k].address@ == peers@[k].address@
                        &&& infos@[k].hostname@ == peers@[k].hostname@
                    },
                decreases list@.len() - i,
            {
                infos.push(PeerInfo::of_peer(&list[i]));
                i += 1;
            }
            DispatchOutcome {
                reply: Some(ServerMessage::PeersList { peers: infos }),
                effects: Vec::new(),
            }
        },
        ClientMessage::GetLocalInfo => {
            DispatchOutcome {
                reply: Some(
                    ServerMessage::LocalInfo {
                        peer_id: peers.local_id(),
                        hostname: peers.local_hostname().clone(),
                    },
                ),
                effects: Vec::new(),
            }
        },
        ClientMessage::Ping => {
            DispatchOutcome { reply: Some(ServerMessage::Pong), effects: Vec::new() }
        },
        ClientMessage::SendFile { peer_id, file_path } => {
            match peers.get_peer(peer_id) {
                None => {
                    DispatchOutcome {
                        reply: Some(
                            ServerMessage::Error {
                                message: String::from_str("Peer not found"),
                            },
                        ),
                        effects: Vec::new(),
                    }
                },
                Some(peer) => {
                    if !(env.file_exists && env.is_file) {
                        DispatchOutcome {
                            reply: Some(
                                ServerMessage::Error {
                                    message: String::from_str("File not found or is not a file"),
                                },
                            ),
                            effects: Vec::new(),
                        }
                    } else {
                        let record = TransferRecord::new(
                            env.fresh_id,
                            Some(peer_id),
                            peer.hostname.clone(),
                            env.filename.clone(),
                            file_path.clone(),
                            env.file_size,
                            TransferDirection::Sent,
                            env.now,
                        );
                        history.start_transfer(record);
                        let mime_type = crate::platform::get_mime_type(env.filename.as_str());
                        let reply = ServerMessage::FileTransferRequest {
                            transfer_id: env.fresh_id,
                            peer_id,
                            filename: env.filename.clone(),
                            file_path: file_path.clone(),
                            file_size: env.file_size,
                            file_checksum: None,
                            mime_type,
                        };
                        let mut effects: Vec<SessionEffect> = Vec::new();
                        effects.push(
                            SessionEffect::StartSend {
                                transfer_id: env.fresh_id,
                                peer_id,
                                peer_address: peer.address.clone(),
                                file_path,
                            },
                        );
                        DispatchOutcome { reply: Some(reply), effects }
                    }
                },
            }
        },
        ClientMessage::BroadcastFile { file_path } => {
            if !env.file_exists {
                DispatchOutcome {
                    reply: Some(
                        ServerMessage::Error { message: String::from_str("File not found") },
                    ),
                    effects: Vec::new(),
                }
            } else if peers.peer_count() == 0 {
                DispatchOutcome {
                    reply: Some(
                        ServerMessage::Error {
                            message: String::from_str("No peers available for broadcast"),
                        },
                    ),
                    effects: Vec::new(),
                }
            } else {
                let targets = peers.list_peers();
                let mime_type = crate::platform::get_mime_type(env.filename.as_str());
                let start = ServerMessage::BroadcastTransferStart {
                    transfer_id: env.fresh_id,
                    filename: env.filename.clone(),
                    file_path: file_path.clone(),
                    file_size: env.file_size,
                    total_peers: targets.len(),
                    file_checksum: clone_opt_string(&env.file_checksum),
                    mime_type,
                };
                let mut effects: Vec<SessionEffect> = Vec::new();
                effects.push(SessionEffect::SendToClient { client_id, message: start });
                effects.push(
                    SessionEffect::StartBroadcast {
                        broadcast_id: env.fresh_id,
                        peers: targets,
                        filename: env.filename.clone(),
                        file_path,
                        file_size: env.file_size,
                        file_checksum: clone_opt_string(&env.file_checksum),
                    },
                );
                DispatchOutcome { reply: None, effects }
            }
        },
        ClientMessage::SendChat { peer_id, message } => {
            let from_peer_id = match conns.lookup_peer(client_id) {
                Some(p) => p,
                None => peers.local_id(),
            };
            let chat = ServerMessage::ChatMessage {
                from_peer_id,
                from_hostname: peers.local_hostname().clone(),
                to_peer_id: peer_id,
                message,
                timestamp: env.now,
            };
            let mut effects: Vec<SessionEffect> = Vec::new();
            match peer_id {
                Some(target) => {
                    let client_ids = conns.chat_targets(client_id, target);
                    effects.push(SessionEffect::SendToClients { client_ids, message: chat });
                },
                None => {
                    effects.push(SessionEffect::BroadcastToAll { message: chat });
                },
            }
            DispatchOutcome { reply: None, effects }
        },
        ClientMessage::GetTransferHistory => {
            let transfers = history.get_all_history();
            DispatchOutcome {
                reply: Some(ServerMessage::TransferHistory { transfers }),
                effects: Vec::new(),
            }
        },
        ClientMessage::GetTransferStats { transfer_id } => {
            match history.get_transfer(transfer_id) {
                Some(record) => {
                    DispatchOutcome {
                        reply: Some(
                            ServerMessage::TransferStats {
                                transfer_id,
                                status: record.status,
                                progress: 0,
                                total: record.file_size,
                                speed_bytes_per_sec: record.speed_bytes_per_sec,
                                eta_seconds: None,
                                start_time: record.start_time,
                            },
                        ),
                        effects: Vec::new(),
                    }
                },
                None => {
                    DispatchOutcome {
                        reply: Some(
                            ServerMessage::Error {
                                message: String::from_str("Transfer not found"),
                            },
                        ),
                        effects: Vec::new(),
                    }
                },
            }
        },
        ClientMessage::CancelTransfer { transfer_id } => {
            history.cancel_transfer(transfer_id, env.now);
            DispatchOutcome {
                reply: Some(ServerMessage::TransferCancelled { transfer_id }),
                effects: Vec::new(),
            }
        },
        ClientMessage::PauseTransfer { transfer_id } => {
            history.pause_transfer(transfer_id);
            DispatchOutcome {
                reply: Some(ServerMessage::TransferPaused { transfer_id }),
                effects: Vec::new(),
            }
        },
        ClientMessage::ResumeTransfer { transfer_id } => {
            history.resume_transfer(transfer_id);
            DispatchOutcome {
                reply: Some(ServerMessage::TransferResumed { transfer_id }),
                effects: Vec::new(),
            }
        },
        ClientMessage::SendDirectory { .. } => {
            DispatchOutcome {
                reply: Some(
                    ServerMessage::Error {
                        message: String::from_str(
                            "Directory transfer not yet implemented. Please archive the directory first.",
                        ),
                    },
                ),
                effects: Vec::new(),
            }
        },
        ClientMessage::BroadcastDirectory { .. } => {
            DispatchOutcome {
                reply: Some(
                    ServerMessage::Error {
                        message: String::from_str(
                            "Directory broadcast not yet implemented. Please archive the directory first.",
                        ),
                    },
                ),
                effects: Vec::new(),
            }
        },
    }
}

/// A value-equal copy of an optional checksum.
fn clone_opt_string(s: &Option<String>) -> (r: Option<String>)
    ensures
        r == *s,
{
    match s {
        Some(v) => Some(v.clone()),
        None => None,
    }
}

/// Asking for the peer list changes nothing and answers from the
/// table alone, so two asks — from any sessions, under any
/// environments, even racing each other — leave every state untouched
/// and yield the same list both times.
pub proof fn lemma_get_peers_idempotent(
    peers: PeerManager,
    conns: ConnectionTable,
    h0: TransferHistory,
    h1: TransferHistory,
    h2: TransferHistory,
    client1: u128,
    client2: u128,
    env1: CommandEnv,
    env2: CommandEnv,
    out1: DispatchOutcome,
    out2: DispatchOutcome,
)
    requires
        dispatch_post(peers, conns, h0, h1, client1, ClientMessage::GetPeers, env1, out1),
        dispatch_post(peers, conns, h1, h2, client2, ClientMessage::GetPeers, env2, out2),
    ensures
        h1 == h0,
        h2 == h0,
        out1.effects@.len() == 0 && out2.effects@.len() == 0,
        out1.reply matches Some(r1) && (r1 matches ServerMessage::PeersList { peers: p1 }
            && (out2.reply matches Some(r2) && (r2 matches ServerMessage::PeersList { peers: p2 }
            && p1@.len() == p2@.len() && (forall|i: int| 0 <= i < p1@.len() ==> {
            &&& (#[trigger] p1@[i]).id == (#[trigger] p2@[i]).id
            &&& p1@[i].address@ == p2@[i].address@
            &&& p1@[i].hostname@ == p2@[i].hostname@
        })))),
{
}

/// A ping changes nothing and always answers with a pong, so two
/// pings on one session answer with two pongs, in arrival order.
pub proof fn lemma_ping_pong_pairs(
    peers: PeerManager,
    conns: ConnectionTable,
    h0: TransferHistory,
    h1: TransferHistory,
    h2: TransferHistory,
    client_id: u128,
    env1: CommandEnv,
    env2: CommandEnv,
    out1: DispatchOutcome,
    out2: DispatchOutcome,
)
    requires
        dispatch_post(peers, conns, h0, h1, client_id, ClientMessage::Ping, env1, out1),
        dispatch_post(peers, conns, h1, h2, client_id, ClientMessage::Ping, env2, out2),
    ensures
        h2 == h0,
        out1.reply == Some(ServerMessage::Pong),
        out2.reply == Some(ServerMessage::Pong),
        out1.effects@.len() == 0 && out2.effects@.len() == 0,
{
}

} // verus!
