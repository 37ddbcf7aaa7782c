use lanshare::history::{TransferHistory, TransferRecord};
use lanshare::protocol::{TransferDirection, TransferStatus};

fn record(id: u128, size: u64, now: u64) -> TransferRecord {
    TransferRecord::new(
        id,
        Some(900 + id),
        "peer-host".to_string(),
        format!("file-{id}.bin"),
        format!("/tmp/file-{id}.bin"),
        size,
        TransferDirection::Sent,
        now,
    )
}

#[test]
fn new_record_is_in_progress() {
    let r = record(1, 4096, 50);
    assert_eq!(r.status, TransferStatus::InProgress);
    assert_eq!(r.timestamp, 50);
    assert_eq!(r.start_time, Some(50));
    assert_eq!(r.end_time, None);
    assert_eq!(r.duration_seconds, None);
    assert_eq!(r.speed_bytes_per_sec, None);
    assert_eq!(r.file_checksum, None);
    assert!(!r.verified);
}

#[test]
fn complete_computes_duration_and_speed() {
    let mut h = TransferHistory::new(10);
    h.start_transfer(record(1, 1000, 100));
    h.complete_transfer(1, Some("abc123".to_string()), true, 110);
    assert!(h.get_transfer(1).is_none(), "completed records leave the active map");
    let all = h.get_all_history();
    assert_eq!(all.len(), 1);
    assert_eq!(all[0].status, TransferStatus::Completed);
    assert_eq!(all[0].duration_seconds, Some(10));
    assert_eq!(all[0].speed_bytes_per_sec, Some(100));
}

#[test]
fn complete_in_same_second_divides_by_one() {
    let mut h = TransferHistory::new(10);
    h.start_transfer(record(1, 777, 100));
    h.complete_transfer(1, None, true, 100);
    let all = h.get_all_history();
    assert_eq!(all[0].duration_seconds, Some(0));
    assert_eq!(all[0].speed_bytes_per_sec, Some(777));
}

#[test]
fn fail_and_cancel_are_terminal() {
    let mut h = TransferHistory::new(10);
    h.start_transfer(record(1, 10, 100));
    h.start_transfer(record(2, 10, 101));
    h.fail_transfer(1, 103);
    h.cancel_transfer(2, 105);
    assert!(h.get_transfer(1).is_none());
    assert!(h.get_transfer(2).is_none());
    let mut statuses: Vec<TransferStatus> = h.get_all_history().iter().map(|e| e.status).collect();
    statuses.sort_by_key(|s| format!("{s:?}"));
    assert_eq!(statuses, vec![TransferStatus::Cancelled, TransferStatus::Failed]);
}

#[test]
fn pause_and_resume_mutate_in_place() {
    let mut h = TransferHistory::new(10);
    h.start_transfer(record(1, 10, 100));
    h.pause_transfer(1);
    assert_eq!(h.get_transfer(1).unwrap().status, TransferStatus::Paused);
    h.resume_transfer(1);
    assert_eq!(h.get_transfer(1).unwrap().status, TransferStatus::InProgress);
    h.update_speed(1, 2048);
    assert_eq!(h.get_transfer(1).unwrap().speed_bytes_per_sec, Some(2048));
}

#[test]
fn transitions_on_unknown_ids_are_no_ops() {
    let mut h = TransferHistory::new(10);
    h.start_transfer(record(1, 10, 100));
    h.complete_transfer(99, None, true, 101);
    h.fail_transfer(99, 101);
    h.cancel_transfer(99, 101);
    h.pause_transfer(99);
    assert!(h.get_transfer(1).is_some());
    assert_eq!(h.get_all_history().len(), 1);
    assert_eq!(h.get_active_transfers().len(), 1);
}

#[test]
fn completed_fifo_respects_its_cap() {
    let mut h = TransferHistory::new(2);
    for id in 1..=4u128 {
        h.start_transfer(record(id, 10, 100 + id as u64));
        h.complete_transfer(id, None, true, 200 + id as u64);
    }
    // cap 2: only the two youngest finishes survive, oldest evicted first
    let all = h.get_all_history();
    assert_eq!(all.len(), 2);
    let mut ids: Vec<u128> = all.iter().map(|e| e.transfer_id).collect();
    ids.sort();
    assert_eq!(ids, vec![3, 4]);
}

#[test]
fn transfer_id_appears_at_most_once() {
    let mut h = TransferHistory::new(10);
    h.start_transfer(record(1, 10, 100));
    h.complete_transfer(1, None, true, 105);
    let n = h
        .get_all_history()
        .iter()
        .filter(|e| e.transfer_id == 1)
        .count();
    assert_eq!(n, 1);
    assert!(h.contains_transfer(1));
    assert!(!h.contains_transfer(2));
}

#[test]
fn history_is_sorted_newest_first() {
    let mut h = TransferHistory::new(10);
    h.start_transfer(record(1, 10, 300));
    h.start_transfer(record(2, 10, 100));
    h.start_transfer(record(3, 10, 200));
    h.complete_transfer(2, None, true, 400);
    let all = h.get_all_history();
    assert_eq!(all.len(), 3);
    let stamps: Vec<u64> = all.iter().map(|e| e.timestamp).collect();
    assert_eq!(stamps, vec![300, 200, 100]);
}
