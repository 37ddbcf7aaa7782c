use lanshare::hashing::checksum_of_bytes;
use lanshare::transfer::{
    check_handshake, num_chunks, sanitize_filename, split_into_chunks, ReceiverAction,
    ReceiverState, SendError, TransferMessage, TransferSlots,
};

fn request(id: u128, name: &str, size: u64, checksum: Option<String>) -> TransferMessage {
    TransferMessage::Request {
        transfer_id: id,
        filename: name.to_string(),
        file_path: format!("/src/{name}"),
        file_size: size,
        file_checksum: checksum,
        mime_type: None,
    }
}

/// Drive a whole receive over an in-memory loopback and hand back the
/// written bytes with the finalize verdict.
fn loopback(data: &[u8], chunk_size: usize, advertised: Option<String>) -> (Vec<u8>, String, bool) {
    let source = data.to_vec();
    let chunks = split_into_chunks(&source, chunk_size);
    let mut st = ReceiverState::start(request(5, "x.bin", source.len() as u64, advertised))
        .expect("a request opens a receive");
    let mut written: Vec<u8> = Vec::new();
    let mut index = 0u64;
    for c in chunks {
        match st.step(TransferMessage::Chunk {
            transfer_id: 5,
            chunk_index: index,
            data: c,
        }) {
            ReceiverAction::WriteChunk(bytes) => written.extend_from_slice(&bytes),
            other => panic!("in-order chunk must be accepted, got {other:?}"),
        }
        index += 1;
    }
    match st.step(TransferMessage::Complete { transfer_id: 5, file_checksum: None }) {
        ReceiverAction::Finish => {}
        other => panic!("complete must finish the stream, got {other:?}"),
    }
    let (calculated, verified) = st.finalize();
    (written, calculated, verified)
}

#[test]
fn loopback_file_is_byte_identical_and_checksum_matches() {
    let data: Vec<u8> = (0..100_000u32).map(|i| (i * 31 % 251) as u8).collect();
    let sender_checksum = checksum_of_bytes(&data);
    let (written, calculated, verified) = loopback(&data, 4096, Some(sender_checksum.clone()));
    assert_eq!(written, data);
    assert_eq!(calculated, sender_checksum);
    assert!(verified);
}

#[test]
fn empty_file_writes_nothing_and_verifies() {
    let (written, _, verified) = loopback(&[], 65536, None);
    assert!(written.is_empty());
    assert!(verified);

    let empty_checksum = checksum_of_bytes(&Vec::new());
    let (written, calculated, verified) = loopback(&[], 65536, Some(empty_checksum.clone()));
    assert!(written.is_empty());
    assert_eq!(calculated, empty_checksum);
    assert!(verified);
}

#[test]
fn checksum_mismatch_is_reported_not_hidden() {
    let data = b"these bytes travelled fine".to_vec();
    let advertised = "0".repeat(64);
    let (written, calculated, verified) = loopback(&data, 8, Some(advertised.clone()));
    assert_eq!(written, data);
    assert_ne!(calculated, advertised);
    assert!(!verified);
}

#[test]
fn last_chunk_is_short_when_size_is_not_a_multiple() {
    let data: Vec<u8> = vec![7u8; 1000];
    let chunks = split_into_chunks(&data, 256);
    assert_eq!(chunks.len(), 4);
    assert_eq!(chunks[0].len(), 256);
    assert_eq!(chunks[1].len(), 256);
    assert_eq!(chunks[2].len(), 256);
    assert_eq!(chunks[3].len(), 1000 - 3 * 256);
    assert!(chunks[3].len() < 256);
}

#[test]
fn chunk_count_for_the_boundary_file() {
    // one byte over sixteen full chunks yields a seventeenth
    assert_eq!(num_chunks(1_048_577, 65_536), 17);
    assert_eq!(num_chunks(1_048_576, 65_536), 16);
    assert_eq!(num_chunks(0, 65_536), 0);
    assert_eq!(num_chunks(1, 65_536), 1);
}

#[test]
fn out_of_order_and_foreign_chunks_are_ignored() {
    let mut st = ReceiverState::start(request(5, "x.bin", 100, None)).unwrap();
    // wrong index
    match st.step(TransferMessage::Chunk { transfer_id: 5, chunk_index: 3, data: vec![1] }) {
        ReceiverAction::Ignore => {}
        other => panic!("out-of-order chunk must be ignored, got {other:?}"),
    }
    // wrong transfer id
    match st.step(TransferMessage::Chunk { transfer_id: 6, chunk_index: 0, data: vec![1] }) {
        ReceiverAction::Ignore => {}
        other => panic!("foreign chunk must be ignored, got {other:?}"),
    }
    assert_eq!(st.received_size, 0);
    assert_eq!(st.next_chunk_index, 0);
    // the right chunk still lands
    match st.step(TransferMessage::Chunk { transfer_id: 5, chunk_index: 0, data: vec![1, 2] }) {
        ReceiverAction::WriteChunk(b) => assert_eq!(b, vec![1, 2]),
        other => panic!("in-order chunk must be accepted, got {other:?}"),
    }
    assert_eq!(st.received_size, 2);
    assert_eq!(st.next_chunk_index, 1);
}

#[test]
fn cancel_and_foreign_complete() {
    let mut st = ReceiverState::start(request(5, "x.bin", 100, None)).unwrap();
    match st.step(TransferMessage::Complete { transfer_id: 9, file_checksum: None }) {
        ReceiverAction::Ignore => {}
        other => panic!("foreign complete must be ignored, got {other:?}"),
    }
    match st.step(TransferMessage::Cancel { transfer_id: 5 }) {
        ReceiverAction::CancelTransfer => {}
        other => panic!("cancel must stop the stream, got {other:?}"),
    }
}

#[test]
fn non_request_opens_no_receive() {
    assert!(ReceiverState::start(TransferMessage::Accept { transfer_id: 5 }).is_none());
    assert!(ReceiverState::start(TransferMessage::Cancel { transfer_id: 5 }).is_none());
}

#[test]
fn receiver_sanitizes_hostile_filenames() {
    assert_eq!(sanitize_filename("../../etc/passwd"), "passwd");
    assert_eq!(sanitize_filename("..\\..\\boot.ini"), "boot.ini");
    assert_eq!(sanitize_filename("plain.txt"), "plain.txt");
    assert_eq!(sanitize_filename("dir/inner/name.bin"), "name.bin");
    assert_eq!(sanitize_filename(".."), "unknown");
    assert_eq!(sanitize_filename("."), "unknown");
    assert_eq!(sanitize_filename("trailing/"), "unknown");
    assert_eq!(sanitize_filename(""), "unknown");
    assert_eq!(sanitize_filename(".hidden"), ".hidden");

    let st = ReceiverState::start(request(5, "../../escape.bin", 10, None)).unwrap();
    assert_eq!(st.filename, "escape.bin");
}

#[test]
fn handshake_judges_every_answer() {
    assert!(check_handshake(TransferMessage::Accept { transfer_id: 5 }, 5).is_ok());
    match check_handshake(TransferMessage::Accept { transfer_id: 6 }, 5) {
        Err(SendError::IdMismatch) => {}
        other => panic!("mismatched accept must fail, got {other:?}"),
    }
    match check_handshake(
        TransferMessage::Reject { transfer_id: 5, reason: Some("disk full".to_string()) },
        5,
    ) {
        Err(SendError::RejectedByPeer { reason }) => assert_eq!(reason.as_deref(), Some("disk full")),
        other => panic!("reject must carry its reason, got {other:?}"),
    }
    match check_handshake(
        TransferMessage::Chunk { transfer_id: 5, chunk_index: 0, data: vec![] },
        5,
    ) {
        Err(SendError::UnexpectedResponse) => {}
        other => panic!("anything else is a protocol error, got {other:?}"),
    }
}

#[test]
fn permit_pool_blocks_the_sixth_transfer_without_erroring() {
    let mut slots = TransferSlots::new(5);
    for _ in 0..5 {
        assert!(slots.try_acquire());
    }
    // the sixth concurrent transfer finds no slot: it waits, it does not fail
    assert!(!slots.try_acquire());
    slots.release();
    assert!(slots.try_acquire());
}
