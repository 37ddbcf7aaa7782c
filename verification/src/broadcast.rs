//! The broadcast fan-out coordinator: one file to every known peer,
//! one peer at a time, with progress reported after each.
//!
//! The runtime drives the loop (each send is socket work); the
//! counters and the messages they yield live here, so the reported
//! sequence is what the accounting says: `completed` climbs by one per
//! peer, and at the end every peer is counted exactly once as a
//! success or a failure.

use vstd::prelude::*;

use crate::protocol::ServerMessage;

verus! {

/// The running tally of one fan-out.
#[derive(Clone, Copy, Debug)]
pub struct BroadcastProgress {
    pub broadcast_id: u128,
    pub total_peers: usize,
    pub completed_peers: usize,
    pub successful_peers: usize,
    pub failed_peers: usize,
}

/// How many of these outcomes succeeded.
pub open spec fn count_true(outcomes: Seq<bool>) -> nat
    decreases outcomes.len(),
{
    if outcomes.len() == 0 {
        0
    } else {
        count_true(outcomes.drop_first()) + if outcomes.first() {
            1nat
        } else {
            0nat
        }
    }
}

/// The tally after one more peer's outcome.
pub open spec fn spec_record_outcome(st: BroadcastProgress, ok: bool) -> BroadcastProgress {
    BroadcastProgress {
        completed_peers: (st.completed_peers + 1) as usize,
        successful_peers: if ok {
            (st.successful_peers + 1) as usize
        } else {
            st.successful_peers
        },
        failed_peers: if ok {
            st.failed_peers
        } else {
            (st.failed_peers + 1) as usize
        },
        ..st
    }
}

/// The tally after a run of outcomes, oldest first.
pub open spec fn spec_run(st: BroadcastProgress, outcomes: Seq<bool>) -> BroadcastProgress
    decreases outcomes.len(),
{
    if outcomes.len() == 0 {
        st
    } else {
        spec_run(spec_record_outcome(st, outcomes.first()), outcomes.drop_first())
    }
}

impl BroadcastProgress {
    /// Every peer counted at most once, each as success or failure.
    pub open spec fn wf(self) -> bool {
        &&& self.completed_peers == self.successful_peers + self.failed_peers
        &&& self.completed_peers <= self.total_peers
    }

    /// A fan-out to `total_peers` peers with no outcome yet.
    pub fn new(broadcast_id: u128, total_peers: usize) -> (st: BroadcastProgress)
        ensures
            st.wf(),
            st.broadcast_id == broadcast_id,
            st.total_peers == total_peers,
            st.completed_peers == 0,
            st.successful_peers == 0,
            st.failed_peers == 0,
    {
        BroadcastProgress {
            broadcast_id,
            total_peers,
            completed_peers: 0,
            successful_peers: 0,
            failed_peers: 0,
        }
    }

    /// Count one peer's outcome, success or failure alike.
    pub fn record_outcome(&mut self, ok: bool)
        requires
            old(self).wf(),
            old(self).completed_peers < old(self).total_peers,
        ensures
            final(self).wf(),
            *final(self) == spec_record_outcome(*old(self), ok),
    {
        self.completed_peers = self.completed_peers + 1;
        if ok {
            self.successful_peers = self.successful_peers + 1;
        } else {
            self.failed_peers = self.failed_peers + 1;
        }
    }

    /// Has every peer been tried?
    pub fn is_done(&self) -> (r: bool)
        ensures
            r == (self.completed_peers == self.total_peers),
    {
        self.completed_peers == self.total_peers
    }

    /// The progress notification after the latest peer.
    pub fn progress_message(&self) -> (m: ServerMessage)
        ensures
            m == (ServerMessage::BroadcastTransferProgress {
                transfer_id: self.broadcast_id,
                completed_peers: self.completed_peers,
                total_peers: self.total_peers,
            }),
    {
        ServerMessage::BroadcastTransferProgress {
            transfer_id: self.broadcast_id,
            completed_peers: self.completed_peers,
            total_peers: self.total_peers,
        }
    }

    /// The closing notification once every peer has been tried.
    pub fn complete_message(&self) -> (m: ServerMessage)
        ensures
            m == (ServerMessage::BroadcastTransferComplete {
                transfer_id: self.broadcast_id,
                successful_peers: self.successful_peers,
                failed_peers: self.failed_peers,
            }),
    {
        ServerMessage::BroadcastTransferComplete {
            transfer_id: self.broadcast_id,
            successful_peers: self.successful_peers,
            failed_peers: self.failed_peers,
        }
    }
}

/// A fan-out over any run of outcomes counts every peer exactly once:
/// after the `k`-th outcome the tally reports `k` completed (so the
/// progress notifications carry 1, 2, … in order), and at the end
/// successes and failures add up to the whole count.
pub proof fn lemma_broadcast_counts(st: BroadcastProgress, outcomes: Seq<bool>)
    requires
        st.wf(),
        st.completed_peers + outcomes.len() <= st.total_peers,
    ensures
        spec_run(st, outcomes).wf(),
        spec_run(st, outcomes).broadcast_id == st.broadcast_id,
        spec_run(st, outcomes).total_peers == st.total_peers,
        spec_run(st, outcomes).completed_peers == st.completed_peers + outcomes.len(),
        spec_run(st, outcomes).successful_peers == st.successful_peers + count_true(outcomes),
        spec_run(st, outcomes).failed_peers == st.failed_peers + outcomes.len() - count_true(
            outcomes,
        ),
    decreases outcomes.len(),
{
    if outcomes.len() > 0 {
        assert(count_true(outcomes) <= outcomes.len()) by {
            lemma_count_true_bound(outcomes);
        }
        lemma_broadcast_counts(spec_record_outcome(st, outcomes.first()), outcomes.drop_first());
    }
}

/// No more successes than outcomes.
pub proof fn lemma_count_true_bound(outcomes: Seq<bool>)
    ensures
        count_true(outcomes) <= outcomes.len(),
    decreases outcomes.len(),
{
    if outcomes.len() > 0 {
        lemma_count_true_bound(outcomes.drop_first());
    }
}

} // verus!
