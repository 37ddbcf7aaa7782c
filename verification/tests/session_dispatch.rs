use lanshare::history::TransferHistory;
use lanshare::peer::{Peer, PeerManager};
use lanshare::protocol::{ClientMessage, ServerMessage, TransferDirection, TransferStatus};
use lanshare::session::{
    handle_client_message, CommandEnv, ConnectionTable, DispatchOutcome, SessionEffect,
};

fn env(fresh_id: u128) -> CommandEnv {
    CommandEnv {
        file_exists: true,
        is_file: true,
        file_size: 1_048_577,
        filename: "x.bin".to_string(),
        file_checksum: None,
        fresh_id,
        now: 1_700_000_000,
    }
}

fn peers_with(ids: &[u128]) -> PeerManager {
    let mut m = PeerManager::with_identity(1, "local-host".to_string());
    for id in ids {
        m.add_or_update_peer(Peer::new(
            *id,
            format!("10.0.0.{id}:7879"),
            format!("host-{id}"),
            100,
        ));
    }
    m
}

#[test]
fn get_peers_is_idempotent() {
    let peers = peers_with(&[2, 3]);
    let conns = ConnectionTable::new();
    let mut h = TransferHistory::new(1000);

    let extract = |out: DispatchOutcome| -> Vec<(u128, String, String)> {
        match out.reply {
            Some(ServerMessage::PeersList { peers }) => peers
                .into_iter()
                .map(|p| (p.id, p.address, p.hostname))
                .collect(),
            other => panic!("GetPeers answers with PeersList, got {other:?}"),
        }
    };

    let first = handle_client_message(&peers, &conns, &mut h, 50, ClientMessage::GetPeers, &env(900));
    assert!(first.effects.is_empty());
    let second = handle_client_message(&peers, &conns, &mut h, 50, ClientMessage::GetPeers, &env(901));
    assert_eq!(extract(first), extract(second));
    assert_eq!(h.get_all_history().len(), 0);
}

#[test]
fn two_pings_yield_two_pongs_in_order() {
    let peers = peers_with(&[]);
    let conns = ConnectionTable::new();
    let mut h = TransferHistory::new(1000);
    let mut replies = Vec::new();
    for id in [900u128, 901] {
        let out = handle_client_message(&peers, &conns, &mut h, 50, ClientMessage::Ping, &env(id));
        assert!(out.effects.is_empty());
        replies.push(out.reply);
    }
    assert!(matches!(replies[0], Some(ServerMessage::Pong)));
    assert!(matches!(replies[1], Some(ServerMessage::Pong)));
}

#[test]
fn get_local_info_reports_the_identity() {
    let peers = peers_with(&[]);
    let conns = ConnectionTable::new();
    let mut h = TransferHistory::new(1000);
    let out = handle_client_message(&peers, &conns, &mut h, 50, ClientMessage::GetLocalInfo, &env(900));
    match out.reply {
        Some(ServerMessage::LocalInfo { peer_id, hostname }) => {
            assert_eq!(peer_id, 1);
            assert_eq!(hostname, "local-host");
        }
        other => panic!("GetLocalInfo answers with LocalInfo, got {other:?}"),
    }
}

#[test]
fn send_file_registers_and_spawns() {
    let peers = peers_with(&[2]);
    let conns = ConnectionTable::new();
    let mut h = TransferHistory::new(1000);
    let out = handle_client_message(
        &peers,
        &conns,
        &mut h,
        50,
        ClientMessage::SendFile { peer_id: 2, file_path: "/data/x.bin".to_string() },
        &env(777),
    );
    match out.reply {
        Some(ServerMessage::FileTransferRequest { transfer_id, peer_id, filename, file_size, file_checksum, .. }) => {
            assert_eq!(transfer_id, 777);
            assert_eq!(peer_id, 2);
            assert_eq!(filename, "x.bin");
            assert_eq!(file_size, 1_048_577);
            assert_eq!(file_checksum, None);
        }
        other => panic!("SendFile echoes the request, got {other:?}"),
    }
    assert_eq!(out.effects.len(), 1);
    match &out.effects[0] {
        SessionEffect::StartSend { transfer_id, peer_id, peer_address, file_path } => {
            assert_eq!(*transfer_id, 777);
            assert_eq!(*peer_id, 2);
            assert_eq!(peer_address, "10.0.0.2:7879");
            assert_eq!(file_path, "/data/x.bin");
        }
        other => panic!("SendFile owes one send, got {other:?}"),
    }
    let rec = h.get_transfer(777).expect("the record is registered");
    assert_eq!(rec.direction, TransferDirection::Sent);
    assert_eq!(rec.status, TransferStatus::InProgress);
    assert_eq!(rec.peer_hostname, "host-2");
}

#[test]
fn send_file_to_missing_file_creates_no_record() {
    let peers = peers_with(&[2]);
    let conns = ConnectionTable::new();
    let mut h = TransferHistory::new(1000);
    let mut e = env(777);
    e.file_exists = false;
    let out = handle_client_message(
        &peers,
        &conns,
        &mut h,
        50,
        ClientMessage::SendFile { peer_id: 2, file_path: "/does/not/exist".to_string() },
        &e,
    );
    match out.reply {
        Some(ServerMessage::Error { message }) => assert!(message.contains("File not found")),
        other => panic!("a missing file is a synchronous error, got {other:?}"),
    }
    assert!(out.effects.is_empty());
    assert_eq!(h.get_all_history().len(), 0, "no record is created");
    assert!(!h.contains_transfer(777));
}

#[test]
fn send_file_to_unknown_peer_fails() {
    let peers = peers_with(&[]);
    let conns = ConnectionTable::new();
    let mut h = TransferHistory::new(1000);
    let out = handle_client_message(
        &peers,
        &conns,
        &mut h,
        50,
        ClientMessage::SendFile { peer_id: 9, file_path: "/data/x.bin".to_string() },
        &env(777),
    );
    match out.reply {
        Some(ServerMessage::Error { message }) => assert_eq!(message, "Peer not found"),
        other => panic!("an unknown peer is a synchronous error, got {other:?}"),
    }
    assert!(out.effects.is_empty());
}

#[test]
fn broadcast_with_no_peers_is_an_error() {
    let peers = peers_with(&[]);
    let conns = ConnectionTable::new();
    let mut h = TransferHistory::new(1000);
    let out = handle_client_message(
        &peers,
        &conns,
        &mut h,
        50,
        ClientMessage::BroadcastFile { file_path: "/data/x.bin".to_string() },
        &env(777),
    );
    match out.reply {
        Some(ServerMessage::Error { message }) => {
            assert_eq!(message, "No peers available for broadcast")
        }
        other => panic!("broadcasting into the void is an error, got {other:?}"),
    }
}

#[test]
fn broadcast_announces_then_owes_the_fanout() {
    let peers = peers_with(&[2, 3, 4]);
    let conns = ConnectionTable::new();
    let mut h = TransferHistory::new(1000);
    let out = handle_client_message(
        &peers,
        &conns,
        &mut h,
        50,
        ClientMessage::BroadcastFile { file_path: "/data/x.bin".to_string() },
        &env(777),
    );
    assert!(out.reply.is_none());
    assert_eq!(out.effects.len(), 2);
    match &out.effects[0] {
        SessionEffect::SendToClient { client_id, message } => {
            assert_eq!(*client_id, 50);
            match message {
                ServerMessage::BroadcastTransferStart { transfer_id, total_peers, .. } => {
                    assert_eq!(*transfer_id, 777);
                    assert_eq!(*total_peers, 3);
                }
                other => panic!("the start notice comes first, got {other:?}"),
            }
        }
        other => panic!("the start notice comes first, got {other:?}"),
    }
    match &out.effects[1] {
        SessionEffect::StartBroadcast { broadcast_id, peers, .. } => {
            assert_eq!(*broadcast_id, 777);
            assert_eq!(peers.len(), 3);
        }
        other => panic!("the fan-out is owed, got {other:?}"),
    }
}

#[test]
fn directed_chat_reaches_target_sessions_and_sender() {
    let peers = peers_with(&[2]);
    let mut conns = ConnectionTable::new();
    conns.add_connection(50, 1); // the sender's session
    conns.add_connection(51, 2); // a session bound to the target
    conns.add_connection(52, 3); // someone else
    let mut h = TransferHistory::new(1000);
    let out = handle_client_message(
        &peers,
        &conns,
        &mut h,
        50,
        ClientMessage::SendChat { peer_id: Some(2), message: "hello".to_string() },
        &env(900),
    );
    assert!(out.reply.is_none());
    assert_eq!(out.effects.len(), 1);
    match &out.effects[0] {
        SessionEffect::SendToClients { client_ids, message } => {
            assert_eq!(client_ids, &vec![50, 51]);
            match message {
                ServerMessage::ChatMessage { from_peer_id, from_hostname, to_peer_id, message, timestamp } => {
                    assert_eq!(*from_peer_id, 1);
                    assert_eq!(from_hostname, "local-host");
                    assert_eq!(*to_peer_id, Some(2));
                    assert_eq!(message, "hello");
                    assert_eq!(*timestamp, 1_700_000_000);
                }
                other => panic!("a chat carries a ChatMessage, got {other:?}"),
            }
        }
        other => panic!("a directed chat goes to chosen sessions, got {other:?}"),
    }
}

#[test]
fn undirected_chat_fans_out_to_everyone() {
    let peers = peers_with(&[]);
    let conns = ConnectionTable::new();
    let mut h = TransferHistory::new(1000);
    let out = handle_client_message(
        &peers,
        &conns,
        &mut h,
        50,
        ClientMessage::SendChat { peer_id: None, message: "hi all".to_string() },
        &env(900),
    );
    assert_eq!(out.effects.len(), 1);
    assert!(matches!(&out.effects[0], SessionEffect::BroadcastToAll { .. }));
}

#[test]
fn transfer_stats_and_control_replies() {
    let peers = peers_with(&[2]);
    let conns = ConnectionTable::new();
    let mut h = TransferHistory::new(1000);
    handle_client_message(
        &peers,
        &conns,
        &mut h,
        50,
        ClientMessage::SendFile { peer_id: 2, file_path: "/data/x.bin".to_string() },
        &env(777),
    );

    let out = handle_client_message(
        &peers,
        &conns,
        &mut h,
        50,
        ClientMessage::GetTransferStats { transfer_id: 777 },
        &env(900),
    );
    match out.reply {
        Some(ServerMessage::TransferStats { transfer_id, status, total, .. }) => {
            assert_eq!(transfer_id, 777);
            assert_eq!(status, TransferStatus::InProgress);
            assert_eq!(total, 1_048_577);
        }
        other => panic!("stats come from the active record, got {other:?}"),
    }

    let out = handle_client_message(
        &peers,
        &conns,
        &mut h,
        50,
        ClientMessage::GetTransferStats { transfer_id: 12345 },
        &env(901),
    );
    match out.reply {
        Some(ServerMessage::Error { message }) => assert_eq!(message, "Transfer not found"),
        other => panic!("unknown ids are an error, got {other:?}"),
    }

    let out = handle_client_message(
        &peers,
        &conns,
        &mut h,
        50,
        ClientMessage::PauseTransfer { transfer_id: 777 },
        &env(902),
    );
    assert!(matches!(out.reply, Some(ServerMessage::TransferPaused { transfer_id: 777 })));
    assert_eq!(h.get_transfer(777).unwrap().status, TransferStatus::Paused);

    let out = handle_client_message(
        &peers,
        &conns,
        &mut h,
        50,
        ClientMessage::ResumeTransfer { transfer_id: 777 },
        &env(903),
    );
    assert!(matches!(out.reply, Some(ServerMessage::TransferResumed { transfer_id: 777 })));

    let out = handle_client_message(
        &peers,
        &conns,
        &mut h,
        50,
        ClientMessage::CancelTransfer { transfer_id: 777 },
        &env(904),
    );
    assert!(matches!(out.reply, Some(ServerMessage::TransferCancelled { transfer_id: 777 })));
    assert!(h.get_transfer(777).is_none());
    assert_eq!(
        h.get_all_history()[0].status,
        TransferStatus::Cancelled,
    );
}

#[test]
fn directory_commands_are_declined() {
    let peers = peers_with(&[]);
    let conns = ConnectionTable::new();
    let mut h = TransferHistory::new(1000);
    let out = handle_client_message(
        &peers,
        &conns,
        &mut h,
        50,
        ClientMessage::SendDirectory { peer_id: 2, dir_path: "/data".to_string() },
        &env(900),
    );
    match out.reply {
        Some(ServerMessage::Error { message }) => {
            assert!(message.contains("Directory transfer not yet implemented"))
        }
        other => panic!("directories are declined, got {other:?}"),
    }
}

#[test]
fn connection_table_bookkeeping() {
    let mut conns = ConnectionTable::new();
    conns.add_connection(50, 1);
    conns.add_connection(51, 2);
    assert_eq!(conns.lookup_peer(50), Some(1));
    assert_eq!(conns.lookup_peer(51), Some(2));
    assert_eq!(conns.client_ids(), vec![50, 51]);
    conns.add_connection(50, 9); // rebind
    assert_eq!(conns.lookup_peer(50), Some(9));
    assert_eq!(conns.client_ids(), vec![50, 51]);
    conns.remove_connection(50);
    assert_eq!(conns.lookup_peer(50), None);
    assert_eq!(conns.client_ids(), vec![51]);
}
