//! The transfer registry: active transfers and a bounded history of
//! finished ones.
//!
//! A record is created when a transfer starts, mutated by its owner,
//! and moved from the active map to the completed FIFO on any terminal
//! transition. The FIFO is capped; the oldest entry is evicted first.
//! Timestamps are seconds handed in by the caller.

use vstd::prelude::*;

use crate::protocol::{TransferDirection, TransferHistoryEntry, TransferStatus};

verus! {

/// How many finished transfers the history retains.
pub const HISTORY_CAP: usize = 1000;

/// One transfer: who, what, how it went.
#[derive(Debug)]
pub struct TransferRecord {
    pub transfer_id: u128,
    pub peer_id: Option<u128>,
    pub peer_hostname: String,
    pub filename: String,
    pub file_path: String,
    pub file_size: u64,
    pub direction: TransferDirection,
    pub status: TransferStatus,
    pub timestamp: u64,
    pub start_time: Option<u64>,
    pub end_time: Option<u64>,
    pub duration_seconds: Option<u64>,
    pub speed_bytes_per_sec: Option<u64>,
    pub file_checksum: Option<String>,
    pub verified: bool,
}

/// Whole seconds from `start` to `now`; a clock that moved backwards
/// yields zero rather than failing.
pub open spec fn spec_duration(start: u64, now: u64) -> u64 {
    if now >= start {
        (now - start) as u64
    } else {
        0
    }
}

/// Mean transfer speed: the file size over the duration, never
/// dividing by zero.
pub open spec fn spec_speed(file_size: u64, duration: u64) -> u64 {
    if duration == 0 {
        file_size
    } else {
        (file_size as int / duration as int) as u64
    }
}

/// The record after a successful finish at `now`.
pub open spec fn completed_record(
    r: TransferRecord,
    checksum: Option<String>,
    verified: bool,
    now: u64,
) -> TransferRecord {
    TransferRecord {
        status: TransferStatus::Completed,
        end_time: Some(now),
        file_checksum: checksum,
        verified: verified,
        duration_seconds: match r.start_time {
            Some(s) => Some(spec_duration(s, now)),
            None => r.duration_seconds,
        },
        speed_bytes_per_sec: match r.start_time {
            Some(s) => Some(spec_speed(r.file_size, spec_duration(s, now))),
            None => r.speed_bytes_per_sec,
        },
        ..r
    }
}

/// The record after a failure at `now`.
pub open spec fn failed_record(r: TransferRecord, now: u64) -> TransferRecord {
    TransferRecord {
        status: TransferStatus::Failed,
        end_time: Some(now),
        duration_seconds: match r.start_time {
            Some(s) => Some(spec_duration(s, now)),
            None => r.duration_seconds,
        },
        ..r
    }
}

/// The record after a cancellation at `now`.
pub open spec fn cancelled_record(r: TransferRecord, now: u64) -> TransferRecord {
    TransferRecord {
        status: TransferStatus::Cancelled,
        end_time: Some(now),
        duration_seconds: match r.start_time {
            Some(s) => Some(spec_duration(s, now)),
            None => r.duration_seconds,
        },
        ..r
    }
}

/// The record a transfer starts with: in progress, started `now`,
/// nothing measured yet.
pub open spec fn fresh_record(
    transfer_id: u128,
    peer_id: Option<u128>,
    peer_hostname: String,
    filename: String,
    file_path: String,
    file_size: u64,
    direction: TransferDirection,
    now: u64,
) -> TransferRecord {
    TransferRecord {
        transfer_id,
        peer_id,
        peer_hostname,
        filename,
        file_path,
        file_size,
        direction,
        status: TransferStatus::InProgress,
        timestamp: now,
        start_time: Some(now),
        end_time: None,
        duration_seconds: None,
        speed_bytes_per_sec: None,
        file_checksum: None,
        verified: false,
    }
}

/// The history line reported for a record.
pub open spec fn entry_of(r: TransferRecord) -> TransferHistoryEntry {
    TransferHistoryEntry {
        transfer_id: r.transfer_id,
        peer_id: r.peer_id,
        peer_hostname: r.peer_hostname,
        filename: r.filename,
        file_size: r.file_size,
        direction: r.direction,
        status: r.status,
        timestamp: r.timestamp,
        duration_seconds: r.duration_seconds,
        speed_bytes_per_sec: r.speed_bytes_per_sec,
    }
}

impl TransferRecord {
    /// A record for a transfer initiated at `now`: in progress, started
    /// now, nothing measured yet.
    pub fn new(
        transfer_id: u128,
        peer_id: Option<u128>,
        peer_hostname: String,
        filename: String,
        file_path: String,
        file_size: u64,
        direction: TransferDirection,
        now: u64,
    ) -> (r: TransferRecord)
        ensures
            r == fresh_record(
                transfer_id,
                peer_id,
                peer_hostname,
                filename,
                file_path,
                file_size,
                direction,
                now,
            ),
    {
        TransferRecord {
            transfer_id,
            peer_id,
            peer_hostname,
            filename,
            file_path,
            file_size,
            direction,
            status: TransferStatus::InProgress,
            timestamp: now,
            start_time: Some(now),
            end_time: None,
            duration_seconds: None,
            speed_bytes_per_sec: None,
            file_checksum: None,
            verified: false,
        }
    }

    /// Whole seconds from this record's start to `now`.
    fn duration_until(&self, now: u64) -> (d: Option<u64>)
        ensures
            d == match self.start_time {
                Some(s) => Some(spec_duration(s, now)),
                None => None::<u64>,
            },
    {
        match self.start_time {
            Some(s) => Some(if now >= s { now - s } else { 0 }),
            None => None,
        }
    }

    /// Mark the transfer completed at `now`, keeping the checksum the
    /// engine computed and whether it matched the advertised one.
    pub fn complete(&mut self, checksum: Option<String>, verified: bool, now: u64)
        ensures
            *final(self) == completed_record(*old(self), checksum, verified, now),
    {
        let dur = self.duration_until(now);
        self.status = TransferStatus::Completed;
        self.end_time = Some(now);
        self.file_checksum = checksum;
        self.verified = verified;
        if let Some(d) = dur {
            self.duration_seconds = Some(d);
            self.speed_bytes_per_sec = Some(
                if d == 0 {
                    self.file_size
                } else {
                    self.file_size / d
                },
            );
        }
    }

    /// Mark the transfer failed at `now`.
    pub fn fail(&mut self, now: u64)
        ensures
            *final(self) == failed_record(*old(self), now),
    {
        let dur = self.duration_until(now);
        self.status = TransferStatus::Failed;
        self.end_time = Some(now);
        if let Some(d) = dur {
            self.duration_seconds = Some(d);
        }
    }

    /// Mark the transfer cancelled at `now`.
    pub fn cancel(&mut self, now: u64)
        ensures
            *final(self) == cancelled_record(*old(self), now),
    {
        let dur = self.duration_until(now);
        self.status = TransferStatus::Cancelled;
        self.end_time = Some(now);
        if let Some(d) = dur {
            self.duration_seconds = Some(d);
        }
    }

    /// Suspend the transfer in place.
    pub fn pause(&mut self)
        ensures
            *final(self) == (TransferRecord { status: TransferStatus::Paused, ..*old(self) }),
    {
        self.status = TransferStatus::Paused;
    }

    /// Put the transfer back in progress.
    pub fn resume(&mut self)
        ensures
            *final(self) == (TransferRecord { status: TransferStatus::InProgress, ..*old(self) }),
    {
        self.status = TransferStatus::InProgress;
    }

    /// Record the latest measured speed.
    pub fn update_speed(&mut self, speed: u64)
        ensures
            *final(self) == (TransferRecord { speed_bytes_per_sec: Some(speed), ..*old(self) }),
    {
        self.speed_bytes_per_sec = Some(speed);
    }

    /// The history line for this record.
    pub fn to_history_entry(&self) -> (e: TransferHistoryEntry)
        ensures
            e == entry_of(*self),
    {
        TransferHistoryEntry {
            transfer_id: self.transfer_id,
            peer_id: self.peer_id,
            peer_hostname: self.peer_hostname.clone(),
            filename: self.filename.clone(),
            file_size: self.file_size,
            direction: self.direction,
            status: self.status,
            timestamp: self.timestamp,
            duration_seconds: self.duration_seconds,
            speed_bytes_per_sec: self.speed_bytes_per_sec,
        }
    }

    /// A value-equal copy (field by field, so the equality is proved).
    pub fn duplicate(&self) -> (r: TransferRecord)
        ensures
            r == *self,
    {
        TransferRecord {
            transfer_id: self.transfer_id,
            peer_id: self.peer_id,
            peer_hostname: self.peer_hostname.clone(),
            filename: self.filename.clone(),
            file_path: self.file_path.clone(),
            file_size: self.file_size,
            direction: self.direction,
            status: self.status,
            timestamp: self.timestamp,
            start_time: self.start_time,
            end_time: self.end_time,
            duration_seconds: self.duration_seconds,
            speed_bytes_per_sec: self.speed_bytes_per_sec,
            file_checksum: match &self.file_checksum {
                Some(c) => Some(c.clone()),
                None => None,
            },
            verified: self.verified,
        }
    }
}

/// Does `s` hold a record with this transfer id?
pub open spec fn has_tid(s: Seq<TransferRecord>, id: u128) -> bool {
    exists|i: int| 0 <= i < s.len() && s[i].transfer_id == id
}

/// The index of the record with this transfer id, if any.
pub open spec fn index_of_tid(s: Seq<TransferRecord>, id: u128) -> int {
    choose|i: int| 0 <= i < s.len() && s[i].transfer_id == id
}

/// No two records of `s` share a transfer id.
pub open spec fn tids_distinct(s: Seq<TransferRecord>) -> bool {
    forall|i: int, j: int| 0 <= i < j < s.len()
        ==> (#[trigger] s[i]).transfer_id != (#[trigger] s[j]).transfer_id
}

/// With distinct ids, the id found at `i` is found nowhere else.
proof fn lemma_index_of_tid(s: Seq<TransferRecord>, i: int, id: u128)
    requires
        tids_distinct(s),
        0 <= i < s.len(),
        s[i].transfer_id == id,
    ensures
        has_tid(s, id),
        index_of_tid(s, id) == i,
{
    assert(has_tid(s, id)) by {
        assert(s[i].transfer_id == id);
    }
    let k = index_of_tid(s, id);
    assert(s[k].transfer_id == id);
    if k < i {
        assert(s[k].transfer_id != s[i].transfer_id);
    } else if k > i {
        assert(s[i].transfer_id != s[k].transfer_id);
    }
}

/// The FIFO after appending `rec` at capacity `cap`: the oldest entry
/// is evicted first when the cap is hit.
pub open spec fn fifo_push(c: Seq<TransferRecord>, cap: usize, rec: TransferRecord) -> Seq<
    TransferRecord,
> {
    if c.len() == cap {
        c.drop_first().push(rec)
    } else {
        c.push(rec)
    }
}

/// `f` is `o` after the active record under `id` was replaced by `rec`
/// and retired into the FIFO; an absent id changes nothing.
pub open spec fn retire_rel(
    o: TransferHistory,
    f: TransferHistory,
    id: u128,
    rec: TransferRecord,
) -> bool {
    &&& f.spec_max_history() == o.spec_max_history()
    &&& has_tid(o.active_view(), id) ==> f.active_view() == o.active_view().remove(
        index_of_tid(o.active_view(), id),
    ) && f.completed_view() == fifo_push(o.completed_view(), o.spec_max_history(), rec)
    &&& !has_tid(o.active_view(), id) ==> f == o
}

/// `f` is `o` after the transfer under `id` completed at `now`.
pub open spec fn complete_rel(
    o: TransferHistory,
    f: TransferHistory,
    id: u128,
    checksum: Option<String>,
    verified: bool,
    now: u64,
) -> bool {
    retire_rel(
        o,
        f,
        id,
        completed_record(
            o.active_view()[index_of_tid(o.active_view(), id)],
            checksum,
            verified,
            now,
        ),
    )
}

/// `f` is `o` after the transfer under `id` failed at `now`.
pub open spec fn fail_rel(o: TransferHistory, f: TransferHistory, id: u128, now: u64) -> bool {
    retire_rel(o, f, id, failed_record(o.active_view()[index_of_tid(o.active_view(), id)], now))
}

/// `f` is `o` after the transfer under `id` was cancelled at `now`.
pub open spec fn cancel_rel(o: TransferHistory, f: TransferHistory, id: u128, now: u64) -> bool {
    retire_rel(o, f, id, cancelled_record(o.active_view()[index_of_tid(o.active_view(), id)], now))
}

/// `f` is `o` with the active record under `id` replaced by `rec` in
/// place; an absent id changes nothing.
pub open spec fn update_in_place_rel(
    o: TransferHistory,
    f: TransferHistory,
    id: u128,
    rec: TransferRecord,
) -> bool {
    &&& f.spec_max_history() == o.spec_max_history()
    &&& f.completed_view() == o.completed_view()
    &&& has_tid(o.active_view(), id) ==> f.active_view() == o.active_view().update(
        index_of_tid(o.active_view(), id),
        rec,
    )
    &&& !has_tid(o.active_view(), id) ==> f == o
}

/// `f` is `o` after the transfer under `id` was paused.
pub open spec fn pause_rel(o: TransferHistory, f: TransferHistory, id: u128) -> bool {
    update_in_place_rel(
        o,
        f,
        id,
        (TransferRecord {
            status: TransferStatus::Paused,
            ..o.active_view()[index_of_tid(o.active_view(), id)]
        }),
    )
}

/// `f` is `o` after the transfer under `id` was resumed.
pub open spec fn resume_rel(o: TransferHistory, f: TransferHistory, id: u128) -> bool {
    update_in_place_rel(
        o,
        f,
        id,
        (TransferRecord {
            status: TransferStatus::InProgress,
            ..o.active_view()[index_of_tid(o.active_view(), id)]
        }),
    )
}

/// Active transfers plus the bounded FIFO of finished ones.
pub struct TransferHistory {
    active: Vec<TransferRecord>,
    completed: Vec<TransferRecord>,
    max_history: usize,
}

impl TransferHistory {
    pub closed spec fn active_view(self) -> Seq<TransferRecord> {
        self.active@
    }

    pub closed spec fn completed_view(self) -> Seq<TransferRecord> {
        self.completed@
    }

    pub closed spec fn spec_max_history(self) -> usize {
        self.max_history
    }

    /// A transfer id appears at most once across active and completed,
    /// the FIFO respects its cap, and every entry in it is terminal.
    pub open spec fn wf(self) -> bool {
        &&& tids_distinct(self.active_view())
        &&& tids_distinct(self.completed_view())
        &&& forall|i: int, j: int|
            0 <= i < self.active_view().len() && 0 <= j < self.completed_view().len()
            ==> (#[trigger] self.active_view()[i]).transfer_id
                != (#[trigger] self.completed_view()[j]).transfer_id
        &&& self.completed_view().len() <= self.spec_max_history()
        &&& self.spec_max_history() >= 1
        &&& forall|j: int| 0 <= j < self.completed_view().len()
            ==> (#[trigger] self.completed_view()[j]).status.is_terminal()
    }

    /// Is some record (active or finished) known under this id?
    pub open spec fn spec_contains(self, id: u128) -> bool {
        has_tid(self.active_view(), id) || has_tid(self.completed_view(), id)
    }

    /// An empty registry retaining at most `max_history` finished
    /// transfers.
    pub fn new(max_history: usize) -> (h: TransferHistory)
        requires
            max_history >= 1,
        ensures
            h.wf(),
            h.active_view().len() == 0,
            h.completed_view().len() == 0,
            h.spec_max_history() == max_history,
    {
        TransferHistory { active: Vec::new(), completed: Vec::new(), max_history }
    }

    /// The index of the active record bearing this id, if one exists.
    fn find_active(&self, id: u128) -> (r: Option<usize>)
        ensures
            match r {
                Some(i) => i < self.active_view().len()
                    && self.active_view()[i as int].transfer_id == id,
                None => !has_tid(self.active_view(), id),
            },
    {
        let mut i: usize = 0;
        while i < self.active.len()
            invariant
                i <= self.active@.len(),
                forall|j: int| 0 <= j < i ==> (#[trigger] self.active@[j]).transfer_id != id,
            decreases self.active@.len() - i,
        {
            if self.active[i].transfer_id == id {
                return Some(i);
            }
            i += 1;
        }
        None
    }

    /// Is some record (active or finished) known under this id?
    pub fn contains_transfer(&self, id: u128) -> (r: bool)
        ensures
            r == self.spec_contains(id),
    {
        if self.find_active(id).is_some() {
            return true;
        }
        let mut i: usize = 0;
        while i < self.completed.len()
            invariant
                i <= self.completed@.len(),
                forall|j: int| 0 <= j < i ==> (#[trigger] self.completed@[j]).transfer_id != id,
                !has_tid(self.active_view(), id),
            decreases self.completed@.len() - i,
        {
            if self.completed[i].transfer_id == id {
                return true;
            }
            i += 1;
        }
        false
    }

    /// Admit a new transfer into the active map. The id must be fresh:
    /// ids are drawn as UUIDs, so one is never reused.
    pub fn start_transfer(&mut self, record: TransferRecord)
        requires
            old(self).wf(),
            !old(self).spec_contains(record.transfer_id),
        ensures
            final(self).wf(),
            final(self).active_view() == old(self).active_view().push(record),
            final(self).completed_view() == old(self).completed_view(),
            final(self).spec_max_history() == old(self).spec_max_history(),
    {
        self.active.push(record);
        proof {
            let olda = old(self).active_view();
            let newa = self.active_view();
            assert forall|i: int, j: int| 0 <= i < j < newa.len()
                implies (#[trigger] newa[i]).transfer_id != (#[trigger] newa[j]).transfer_id by {
                if j < olda.len() {
                    assert(newa[i] == olda[i] && newa[j] == olda[j]);
                } else {
                    assert(newa[j] == record);
                    assert(newa[i] == olda[i]);
                    assert(!has_tid(olda, record.transfer_id));
                }
            }
            assert forall|i: int, j: int|
                0 <= i < newa.len() && 0 <= j < self.completed_view().len()
                implies (#[trigger] newa[i]).transfer_id
                    != (#[trigger] self.completed_view()[j]).transfer_id by {
                if i < olda.len() {
                    assert(newa[i] == olda[i]);
                } else {
                    assert(newa[i] == record);
                    assert(!has_tid(self.completed_view(), record.transfer_id));
                }
            }
        }
    }

    /// The active record under this id, if any; finished transfers are
    /// not consulted.
    pub fn get_transfer(&self, id: u128) -> (r: Option<TransferRecord>)
        requires
            self.wf(),
        ensures
            match r {
                Some(rec) => has_tid(self.active_view(), id)
                    && rec == self.active_view()[index_of_tid(self.active_view(), id)],
                None => !has_tid(self.active_view(), id),
            },
    {
        match self.find_active(id) {
            Some(i) => {
                proof {
                    lemma_index_of_tid(self.active_view(), i as int, id);
                }
                Some(self.active[i].duplicate())
            },
            None => None,
        }
    }

    /// Move the record out of the active map, transform it, and append
    /// it to the FIFO, evicting the oldest entry if the cap is hit.
    /// Shared tail of the terminal transitions.
    fn retire(&mut self, idx: usize, record: TransferRecord)
        requires
            old(self).wf(),
            idx < old(self).active_view().len(),
            record.transfer_id == old(self).active_view()[idx as int].transfer_id,
            record.status.is_terminal(),
        ensures
            final(self).wf(),
            final(self).active_view() == old(self).active_view().remove(idx as int),
            final(self).completed_view() == if old(self).completed_view().len()
                == old(self).spec_max_history() {
                old(self).completed_view().drop_first().push(record)
            } else {
                old(self).completed_view().push(record)
            },
            final(self).spec_max_history() == old(self).spec_max_history(),
    {
        let ghost olda = old(self).active_view();
        let ghost oldc = old(self).completed_view();
        self.active.remove(idx);
        self.completed.push(record);
        if self.completed.len() > self.max_history {
            self.completed.remove(0);
        }
        proof {
            let newa = self.active_view();
            let newc = self.completed_view();
            // the record's id was at position idx of the old active map,
            // so it is in neither the remaining active map nor the old FIFO
            assert forall|i: int, j: int| 0 <= i < j < newa.len()
                implies (#[trigger] newa[i]).transfer_id != (#[trigger] newa[j]).transfer_id by {
                let i0 = if i < idx { i } else { i + 1 };
                let j0 = if j < idx { j } else { j + 1 };
                assert(newa[i] == olda[i0] && newa[j] == olda[j0]);
            }
            assert forall|i: int, j: int| 0 <= i < j < newc.len()
                implies (#[trigger] newc[i]).transfer_id != (#[trigger] newc[j]).transfer_id by {
                if oldc.len() == old(self).spec_max_history() {
                    assert(newc == oldc.drop_first().push(record));
                    if j < newc.len() - 1 {
                        assert(newc[i] == oldc[i + 1] && newc[j] == oldc[j + 1]);
                    } else {
                        assert(newc[j] == record);
                        assert(newc[i] == oldc[i + 1]);
                        assert(olda[idx as int].transfer_id != oldc[i + 1].transfer_id);
                    }
                } else {
                    if j < newc.len() - 1 {
                        assert(newc[i] == oldc[i] && newc[j] == oldc[j]);
                    } else {
                        assert(newc[j] == record);
                        assert(newc[i] == oldc[i]);
                        assert(olda[idx as int].transfer_id != oldc[i].transfer_id);
                    }
                }
            }
            assert forall|i: int, j: int| 0 <= i < newa.len() && 0 <= j < newc.len()
                implies (#[trigger] newa[i]).transfer_id != (#[trigger] newc[j]).transfer_id by {
                let i0 = if i < idx { i } else { i + 1 };
                assert(newa[i] == olda[i0]);
                if oldc.len() == old(self).spec_max_history() {
                    if j < newc.len() - 1 {
                        assert(newc[j] == oldc[j + 1]);
                    } else {
                        assert(newc[j] == record);
                        assert(i0 != idx);
                    }
                } else {
                    if j < newc.len() - 1 {
                        assert(newc[j] == oldc[j]);
                    } else {
                        assert(newc[j] == record);
                        assert(i0 != idx);
                    }
                }
            }
            assert forall|j: int| 0 <= j < newc.len()
                implies (#[trigger] newc[j]).status.is_terminal() by {
                if oldc.len() == old(self).spec_max_history() {
                    if j < newc.len() - 1 {
                        assert(newc[j] == oldc[j + 1]);
                    } else {
                        assert(newc[j] == record);
                    }
                } else {
                    if j < newc.len() - 1 {
                        assert(newc[j] == oldc[j]);
                    } else {
                        assert(newc[j] == record);
                    }
                }
            }
        }
    }

    /// Finish the transfer under this id; absent ids are a no-op.
    pub fn complete_transfer(&mut self, id: u128, checksum: Option<String>, verified: bool, now: u64)
        requires
            old(self).wf(),
        ensures
            final(self).wf(),
            complete_rel(*old(self), *final(self), id, checksum, verified, now),
    {
        match self.find_active(id) {
            Some(i) => {
                proof {
                    lemma_index_of_tid(self.active_view(), i as int, id);
                }
                let mut rec = self.active[i].duplicate();
                rec.complete(checksum, verified, now);
                self.retire(i, rec);
            },
            None => {},
        }
    }

    /// Fail the transfer under this id; absent ids are a no-op.
    pub fn fail_transfer(&mut self, id: u128, now: u64)
        requires
            old(self).wf(),
        ensures
            final(self).wf(),
            fail_rel(*old(self), *final(self), id, now),
    {
        match self.find_active(id) {
            Some(i) => {
                proof {
                    lemma_index_of_tid(self.active_view(), i as int, id);
                }
                let mut rec = self.active[i].duplicate();
                rec.fail(now);
                self.retire(i, rec);
            },
            None => {},
        }
    }

    /// Cancel the transfer under this id; absent ids are a no-op.
    pub fn cancel_transfer(&mut self, id: u128, now: u64)
        requires
            old(self).wf(),
        ensures
            final(self).wf(),
            cancel_rel(*old(self), *final(self), id, now),
    {
        match self.find_active(id) {
            Some(i) => {
                proof {
                    lemma_index_of_tid(self.active_view(), i as int, id);
                }
                let mut rec = self.active[i].duplicate();
                rec.cancel(now);
                self.retire(i, rec);
            },
            None => {},
        }
    }

    /// Replace the active record at `idx`, keeping its id.
    /// Shared tail of the in-place mutations.
    fn set_active(&mut self, idx: usize, record: TransferRecord)
        requires
            old(self).wf(),
            idx < old(self).active_view().len(),
            record.transfer_id == old(self).active_view()[idx as int].transfer_id,
        ensures
            final(self).wf(),
            final(self).active_view() == old(self).active_view().update(idx as int, record),
            final(self).completed_view() == old(self).completed_view(),
            final(self).spec_max_history() == old(self).spec_max_history(),
    {
        self.active.set(idx, record);
    }

    /// Suspend the active transfer under this id; absent ids are a
    /// no-op.
    pub fn pause_transfer(&mut self, id: u128)
        requires
            old(self).wf(),
        ensures
            final(self).wf(),
            pause_rel(*old(self), *final(self), id),
    {
        match self.find_active(id) {
            Some(i) => {
                proof {
                    lemma_index_of_tid(self.active_view(), i as int, id);
                }
                let mut rec = self.active[i].duplicate();
                rec.pause();
                self.set_active(i, rec);
            },
            None => {},
        }
    }

    /// Put the active transfer under this id back in progress; absent
    /// ids are a no-op.
    pub fn resume_transfer(&mut self, id: u128)
        requires
            old(self).wf(),
        ensures
            final(self).wf(),
            resume_rel(*old(self), *final(self), id),
    {
        match self.find_active(id) {
            Some(i) => {
                proof {
                    lemma_index_of_tid(self.active_view(), i as int, id);
                }
                let mut rec = self.active[i].duplicate();
                rec.resume();
                self.set_active(i, rec);
            },
            None => {},
        }
    }

    /// Record the latest measured speed of the active transfer under
    /// this id; absent ids are a no-op.
    pub fn update_speed(&mut self, id: u128, speed: u64)
        requires
            old(self).wf(),
        ensures
            final(self).wf(),
            final(self).completed_view() == old(self).completed_view(),
            final(self).spec_max_history() == old(self).spec_max_history(),
            !has_tid(old(self).active_view(), id) ==> *final(self) == *old(self),
            has_tid(old(self).active_view(), id) ==> {
                let idx = index_of_tid(old(self).active_view(), id);
                final(self).active_view() == old(self).active_view().update(
                    idx,
                    (TransferRecord {
                        speed_bytes_per_sec: Some(speed),
                        ..old(self).active_view()[idx]
                    }),
                )
            },
    {
        match self.find_active(id) {
            Some(i) => {
                proof {
                    lemma_index_of_tid(self.active_view(), i as int, id);
                }
                let mut rec = self.active[i].duplicate();
                rec.update_speed(speed);
                self.set_active(i, rec);
            },
            None => {},
        }
    }

    /// Snapshots of every active record.
    pub fn get_active_transfers(&self) -> (r: Vec<TransferRecord>)
        ensures
            r@ == self.active_view(),
    {
        let mut out: Vec<TransferRecord> = Vec::new();
        let mut i: usize = 0;
        while i < self.active.len()
            invariant
                i <= self.active@.len(),
                out@ == self.active@.subrange(0, i as int),
            decreases self.active@.len() - i,
        {
            out.push(self.active[i].duplicate());
            i += 1;
        }
        proof {
            assert(out@ =~= self.active_view());
        }
        out
    }

    /// Every transfer, active and finished, as history lines sorted by
    /// creation time, newest first.
    pub fn get_all_history(&self) -> (r: Vec<TransferHistoryEntry>)
        ensures
            r@.to_multiset() == (self.active_view().map_values(|rec: TransferRecord| entry_of(rec))
                + self.completed_view().map_values(|rec: TransferRecord| entry_of(rec)))
                .to_multiset(),
            entries_sorted_newest_first(r@),
    {
        let mut all: Vec<TransferHistoryEntry> = Vec::new();
        let mut i: usize = 0;
        while i < self.active.len()
            invariant
                i <= self.active@.len(),
                all@ == self.active@.subrange(0, i as int).map_values(
                    |rec: TransferRecord| entry_of(rec),
                ),
            decreases self.active@.len() - i,
        {
            all.push(self.active[i].to_history_entry());
            proof {
                assert(all@ =~= self.active@.subrange(0, i + 1).map_values(
                    |rec: TransferRecord| entry_of(rec),
                ));
            }
            i += 1;
        }
        let mut j: usize = 0;
        while j < self.completed.len()
            invariant
                j <= self.completed@.len(),
                all@ == self.active@.map_values(|rec: TransferRecord| entry_of(rec))
                    + self.completed@.subrange(0, j as int).map_values(
                    |rec: TransferRecord| entry_of(rec),
                ),
            decreases self.completed@.len() - j,
        {
            all.push(self.completed[j].to_history_entry());
            proof {
                assert(all@ =~= self.active@.map_values(|rec: TransferRecord| entry_of(rec))
                    + self.completed@.subrange(0, j + 1).map_values(
                    |rec: TransferRecord| entry_of(rec),
                ));
            }
            j += 1;
        }
        proof {
            assert(self.active@.subrange(0, self.active@.len() as int) =~= self.active@);
            assert(self.completed@.subrange(0, self.completed@.len() as int) =~= self.completed@);
        }
        sort_entries_newest_first(all)
    }
}

/// How many records of `s` bear this transfer id.
pub open spec fn count_with_tid(s: Seq<TransferRecord>, id: u128) -> nat
    decreases s.len(),
{
    if s.len() == 0 {
        0
    } else {
        count_with_tid(s.drop_last(), id) + if s.last().transfer_id == id {
            1nat
        } else {
            0nat
        }
    }
}

proof fn lemma_count_zero_when_absent(s: Seq<TransferRecord>, id: u128)
    requires
        !has_tid(s, id),
    ensures
        count_with_tid(s, id) == 0,
    decreases s.len(),
{
    if s.len() > 0 {
        assert(!has_tid(s.drop_last(), id)) by {
            if has_tid(s.drop_last(), id) {
                let i = index_of_tid(s.drop_last(), id);
                assert(s[i].transfer_id == id);
            }
        }
        lemma_count_zero_when_absent(s.drop_last(), id);
        assert(s.last().transfer_id != id) by {
            assert(s[s.len() - 1] == s.last());
        }
    }
}

proof fn lemma_count_distinct(s: Seq<TransferRecord>, id: u128)
    requires
        tids_distinct(s),
    ensures
        count_with_tid(s, id) <= 1,
    decreases s.len(),
{
    if s.len() > 0 {
        let rest = s.drop_last();
        assert(tids_distinct(rest)) by {
            assert forall|i: int, j: int| 0 <= i < j < rest.len()
                implies (#[trigger] rest[i]).transfer_id != (#[trigger] rest[j]).transfer_id by {
                assert(s[i].transfer_id != s[j].transfer_id);
            }
        }
        if s.last().transfer_id == id {
            assert(!has_tid(rest, id)) by {
                if has_tid(rest, id) {
                    let i = index_of_tid(rest, id);
                    assert(rest[i].transfer_id == id);
                    assert(s[i].transfer_id != s[s.len() - 1].transfer_id);
                }
            }
            lemma_count_zero_when_absent(rest, id);
        } else {
            lemma_count_distinct(rest, id);
        }
    }
}

/// Any transfer id appears at most once across the active map and the
/// completed FIFO together.
pub proof fn lemma_transfer_id_unique(h: TransferHistory, id: u128)
    requires
        h.wf(),
    ensures
        count_with_tid(h.active_view() + h.completed_view(), id) <= 1,
{
    let both = h.active_view() + h.completed_view();
    assert(tids_distinct(both)) by {
        assert forall|i: int, j: int| 0 <= i < j < both.len()
            implies (#[trigger] both[i]).transfer_id != (#[trigger] both[j]).transfer_id by {
            let a = h.active_view();
            let c = h.completed_view();
            if j < a.len() {
                assert(both[i] == a[i] && both[j] == a[j]);
                assert(a[i].transfer_id != a[j].transfer_id);
            } else if i >= a.len() {
                assert(both[i] == c[i - a.len()] && both[j] == c[j - a.len()]);
                assert(c[i - a.len()].transfer_id != c[j - a.len()].transfer_id);
            } else {
                assert(both[i] == a[i] && both[j] == c[j - a.len()]);
                assert(a[i].transfer_id != c[j - a.len()].transfer_id);
            }
        }
    }
    lemma_count_distinct(both, id);
}

/// The completed FIFO never outgrows the cap it was created with.
pub proof fn lemma_history_bounded(h: TransferHistory)
    requires
        h.wf(),
    ensures
        h.completed_view().len() <= h.spec_max_history(),
{
}

/// Newest first: creation times never increase along the sequence.
pub open spec fn entries_sorted_newest_first(s: Seq<TransferHistoryEntry>) -> bool {
    forall|i: int, j: int| 0 <= i <= j < s.len()
        ==> (#[trigger] s[i]).timestamp >= (#[trigger] s[j]).timestamp
}

/// Selection sort on creation time, newest first. The result holds
/// exactly the given entries.
fn sort_entries_newest_first(input: Vec<TransferHistoryEntry>) -> (r: Vec<TransferHistoryEntry>)
    ensures
        r@.to_multiset() == input@.to_multiset(),
        entries_sorted_newest_first(r@),
{
    broadcast use vstd::seq_lib::group_to_multiset_ensures;
    broadcast use vstd::multiset::group_multiset_axioms;

    let mut rest = input;
    let mut out: Vec<TransferHistoryEntry> = Vec::new();
    while rest.len() > 0
        invariant
            out@.to_multiset().add(rest@.to_multiset()) == input@.to_multiset(),
            entries_sorted_newest_first(out@),
            forall|k: int, j: int| 0 <= k < out@.len() && 0 <= j < rest@.len()
                ==> (#[trigger] out@[k]).timestamp >= (#[trigger] rest@[j]).timestamp,
        decreases rest@.len(),
    {
        let mut imax: usize = 0;
        let mut i: usize = 1;
        while i < rest.len()
            invariant
                imax < i <= rest@.len(),
                rest@.len() > 0,
                forall|j: int| 0 <= j < i
                    ==> rest@[imax as int].timestamp >= (#[trigger] rest@[j]).timestamp,
            decreases rest@.len() - i,
        {
            if rest[i].timestamp > rest[imax].timestamp {
                imax = i;
            }
            i += 1;
        }
        let ghost out0 = out@;
        let ghost rest0 = rest@;
        let e = rest.remove(imax);
        out.push(e);
        proof {
            assert(rest0.contains(e)) by {
                assert(rest0[imax as int] == e);
            }
            vstd::seq_lib::to_multiset_build(out0, e);
            vstd::seq_lib::to_multiset_remove(rest0, imax as int);
            assert(out@ == out0.push(e));
            assert(rest@ == rest0.remove(imax as int));
            vstd::seq_lib::to_multiset_contains(rest0, e);
            assert(rest0.to_multiset().count(e) > 0);
            assert(out@.to_multiset().add(rest@.to_multiset()) =~= input@.to_multiset());
            assert forall|k: int, j: int| 0 <= k < out@.len() && 0 <= j < rest@.len()
                implies (#[trigger] out@[k]).timestamp >= (#[trigger] rest@[j]).timestamp by {
                let j0 = if j < imax { j } else { j + 1 };
                assert(rest@[j] == rest0[j0]);
                if k < out0.len() {
                    assert(out@[k] == out0[k]);
                } else {
                    assert(out@[k] == e);
                }
            }
        }
    }
    out
}

} // verus!
