//! The framed TCP transfer protocol: message kinds, the receiver state
//! machine, the sender's handshake and chunking, and the shared permit
//! pool.
//!
//! One transfer is one connection. Each direction carries
//! newline-delimited messages; chunks are numbered from zero and the
//! receiver accepts them only in order, so the bytes it files are
//! exactly the bytes the sender read. Socket work is the runtime's: the
//! functions here take each received message and say what to do with it.

use vstd::prelude::*;

use crate::hashing::{
    decide_verified, hashed_bytes, hex_encode, hex_of, sha256_finalize, sha256_new, sha256_of,
    sha256_update, spec_verified,
};
use crate::platform::{get_mime_type, mime_of};

verus! {

/// Seconds a sender may take to connect.
pub const CONNECT_TIMEOUT_SECONDS: u64 = 10;

/// Seconds the receiver waits for the opening request, and the sender
/// for the answer to it.
pub const HANDSHAKE_TIMEOUT_SECONDS: u64 = 30;

/// Seconds of silence that end a streaming transfer.
pub const CHUNK_TIMEOUT_SECONDS: u64 = 60;

/// One line of the transfer protocol, in either direction.
#[derive(Debug)]
pub enum TransferMessage {
    Request {
        transfer_id: u128,
        filename: String,
        file_path: String,
        file_size: u64,
        file_checksum: Option<String>,
        mime_type: Option<String>,
    },
    Accept {
        transfer_id: u128,
    },
    Reject {
        transfer_id: u128,
        reason: Option<String>,
    },
    Chunk {
        transfer_id: u128,
        chunk_index: u64,
        data: Vec<u8>,
    },
    Complete {
        transfer_id: u128,
        file_checksum: Option<String>,
    },
    Error {
        transfer_id: u128,
        message: String,
    },
    Pause {
        transfer_id: u128,
    },
    Resume {
        transfer_id: u128,
    },
    Cancel {
        transfer_id: u128,
    },
}

// ---------------------------------------------------------------------
// Chunking
// ---------------------------------------------------------------------

/// How many chunks a file of `file_size` bytes yields at `chunk_size`
/// bytes per chunk: the rounded-up quotient, zero for an empty file.
pub open spec fn spec_chunk_count(file_size: nat, chunk_size: nat) -> nat
    recommends
        chunk_size > 0,
{
    if file_size == 0 {
        0
    } else {
        ((file_size - 1) / chunk_size as int + 1) as nat
    }
}

/// The concatenation of a sequence of byte chunks.
pub open spec fn concat_bytes(chunks: Seq<Seq<u8>>) -> Seq<u8>
    decreases chunks.len(),
{
    if chunks.len() == 0 {
        Seq::empty()
    } else {
        concat_bytes(chunks.drop_last()) + chunks.last()
    }
}

/// How many chunk messages a transfer of this size will carry.
pub fn num_chunks(file_size: u64, chunk_size: u64) -> (n: u64)
    requires
        chunk_size > 0,
    ensures
        n == spec_chunk_count(file_size as nat, chunk_size as nat),
{
    if file_size == 0 {
        0
    } else {
        (file_size - 1) / chunk_size + 1
    }
}

/// Cut a buffer into chunks of `chunk_size` bytes, the last one
/// shorter when the size is not a multiple. Concatenated back in
/// order, the chunks are exactly the buffer: what a sender emits and
/// an in-order receiver files is byte-identical to the source.
pub fn split_into_chunks(data: &Vec<u8>, chunk_size: usize) -> (chunks: Vec<Vec<u8>>)
    requires
        chunk_size > 0,
    ensures
        chunks@.len() == spec_chunk_count(data@.len(), chunk_size as nat),
        forall|k: int| 0 <= k < chunks@.len() ==> (#[trigger] chunks@[k])@
            == data@.subrange(
            k * chunk_size,
            if (k + 1) * chunk_size <= data@.len() {
                (k + 1) * chunk_size
            } else {
                data@.len() as int
            },
        ),
        forall|k: int| 0 <= k < chunks@.len()
            ==> 0 < (#[trigger] chunks@[k])@.len() <= chunk_size,
        concat_bytes(chunks@.map_values(|c: Vec<u8>| c@)) == data@,
{
    let mut chunks: Vec<Vec<u8>> = Vec::new();
    let mut pos: usize = 0;
    proof {
        assert(chunks@.len() * chunk_size == 0) by (nonlinear_arith)
            requires
                chunks@.len() == 0,
        ;
    }
    while pos < data.len()
        invariant
            chunk_size > 0,
            pos <= data@.len(),
            chunks@.len() * chunk_size == pos || (pos == data@.len() && (chunks@.len() - 1)
                * chunk_size < pos <= chunks@.len() * chunk_size),
            forall|k: int| 0 <= k < chunks@.len() ==> (#[trigger] chunks@[k])@
                == data@.subrange(
                k * chunk_size,
                if (k + 1) * chunk_size <= data@.len() {
                    (k + 1) * chunk_size
                } else {
                    data@.len() as int
                },
            ),
            forall|k: int| 0 <= k < chunks@.len()
                ==> 0 < (#[trigger] chunks@[k])@.len() <= chunk_size,
            concat_bytes(chunks@.map_values(|c: Vec<u8>| c@)) == data@.subrange(0, pos as int),
        decreases data@.len() - pos,
    {
        let remaining = data.len() - pos;
        let step = if remaining < chunk_size {
            remaining
        } else {
            chunk_size
        };
        let end = pos + step;
        let mut piece: Vec<u8> = Vec::new();
        let mut idx = pos;
        while idx < end
            invariant
                pos <= idx <= end,
                end == pos + step,
                end <= data@.len(),
                piece@ == data@.subrange(pos as int, idx as int),
            decreases end - idx,
        {
            piece.push(data[idx]);
            proof {
                assert(piece@ =~= data@.subrange(pos as int, idx + 1));
            }
            idx += 1;
        }
        let ghost oldchunks = chunks@;
        let ghost oldpos = pos as int;
        chunks.push(piece);
        pos += step;
        proof {
            let m = oldchunks.len() as int;
            let cs = chunk_size as int;
            let n = data@.len() as int;
            // only full chunks stand before this one, so it starts at m * cs
            assert(oldpos == m * cs);
            assert((m + 1) * cs == m * cs + cs) by (nonlinear_arith);
            assert(((m + 1) - 1) * cs == m * cs) by (nonlinear_arith);
            if step == chunk_size {
                assert(pos == (m + 1) * cs);
            } else {
                assert(pos == n);
                assert((m + 1 - 1) * cs < pos <= (m + 1) * cs);
            }
            let views = chunks@.map_values(|c: Vec<u8>| c@);
            let oldviews = oldchunks.map_values(|c: Vec<u8>| c@);
            assert(views.drop_last() =~= oldviews);
            assert(concat_bytes(views) == concat_bytes(oldviews) + views.last());
            assert(concat_bytes(views) =~= data@.subrange(0, pos as int));
            assert forall|k: int| 0 <= k < chunks@.len() implies (#[trigger] chunks@[k])@
                == data@.subrange(
                k * chunk_size,
                if (k + 1) * chunk_size <= data@.len() {
                    (k + 1) * chunk_size
                } else {
                    data@.len() as int
                },
            ) by {
                if k < oldchunks.len() {
                    assert(chunks@[k] == oldchunks[k]);
                } else {
                    assert(k == m);
                    assert(chunks@[k]@ == data@.subrange(oldpos, pos as int));
                    assert(k * cs == oldpos);
                    assert((k + 1) * cs == oldpos + cs);
                    if step == chunk_size {
                        assert((k + 1) * cs <= n);
                        assert(pos == (k + 1) * cs);
                    } else {
                        assert(pos == n);
                        assert((k + 1) * cs > n);
                    }
                }
            }
        }
    }
    proof {
        assert(data@.subrange(0, data@.len() as int) =~= data@);
        if data@.len() > 0 {
            let m = chunks@.len() as int;
            let cs = chunk_size as int;
            let n = data@.len() as int;
            assert((m - 1) * cs == m * cs - cs) by (nonlinear_arith);
            assert(m * cs >= n && (m - 1) * cs < n);
            assert(m == (n - 1) / cs + 1) by (nonlinear_arith)
                requires
                    cs > 0,
                    n > 0,
                    m * cs >= n,
                    (m - 1) * cs < n,
            ;
        }
    }
    chunks
}

/// When the file size is not a multiple of the chunk size, the last
/// chunk is strictly shorter than the others.
pub proof fn lemma_last_chunk_short(file_size: nat, chunk_size: nat, last_len: nat)
    requires
        chunk_size > 0,
        file_size > 0,
        file_size % chunk_size != 0,
        last_len == file_size - (spec_chunk_count(file_size, chunk_size) - 1) * chunk_size,
    ensures
        last_len < chunk_size,
        last_len == file_size % chunk_size,
{
    let n = spec_chunk_count(file_size, chunk_size);
    assert(n == (file_size - 1) / chunk_size as int + 1);
    assert(last_len == file_size % chunk_size && last_len < chunk_size) by (nonlinear_arith)
        requires
            chunk_size > 0,
            file_size > 0,
            file_size % chunk_size != 0,
            n == (file_size - 1) / chunk_size as int + 1,
            last_len == file_size - (n - 1) * chunk_size,
    ;
}

// ---------------------------------------------------------------------
// Receiver state machine
// ---------------------------------------------------------------------

/// What the receiver should do with one incoming message.
#[derive(Debug)]
pub enum ReceiverAction {
    /// Append these bytes to the file on disk.
    WriteChunk(Vec<u8>),
    /// The sender declared the stream complete: finalize.
    Finish,
    /// The sender cancelled: stop and discard the partial file.
    CancelTransfer,
    /// Unrelated id, out-of-order index, or a kind with no meaning
    /// here: drop it silently.
    Ignore,
}

/// The streaming phase of one inbound transfer: identity and size from
/// the opening request, the strict chunk cursor, and the running
/// digest of everything accepted.
pub struct ReceiverState {
    pub transfer_id: u128,
    pub filename: String,
    pub file_size: u64,
    pub expected_checksum: Option<String>,
    pub received_size: u64,
    pub next_chunk_index: u64,
    pub hasher: sha2::Sha256,
    pub bytes: Ghost<Seq<u8>>,
}

impl ReceiverState {
    /// Every byte accepted so far, in arrival order.
    pub open spec fn received_body(self) -> Seq<u8> {
        self.bytes@
    }

    /// The running digest has seen exactly the accepted bytes, and the
    /// counter equals their number.
    pub open spec fn wf(self) -> bool {
        &&& hashed_bytes(self.hasher) == self.bytes@
        &&& self.received_size == self.bytes@.len()
    }

    /// Does this chunk message extend the stream: right transfer,
    /// right position, and room left in the counters?
    pub open spec fn accepts(self, msg: TransferMessage) -> bool {
        msg matches TransferMessage::Chunk { transfer_id, chunk_index, data }
            && transfer_id == self.transfer_id && chunk_index == self.next_chunk_index
            && self.received_size + data@.len() <= u64::MAX && self.next_chunk_index < u64::MAX
    }

    /// Open a receive for an incoming request; any other first message
    /// is not a transfer and yields nothing, as the listener then just
    /// closes the connection.
    pub fn start(msg: TransferMessage) -> (r: Option<ReceiverState>)
        ensures
            match msg {
                TransferMessage::Request { transfer_id, filename, file_size, file_checksum, .. } => {
                    &&& r matches Some(st)
                    &&& st.wf()
                    &&& st.transfer_id == transfer_id
                    &&& st.filename@ == spec_sanitized_filename(filename@)
                    &&& st.file_size == file_size
                    &&& st.expected_checksum == file_checksum
                    &&& st.received_size == 0
                    &&& st.next_chunk_index == 0
                    &&& st.received_body() == Seq::<u8>::empty()
                },
                _ => r is None,
            },
    {
        match msg {
            TransferMessage::Request { transfer_id, filename, file_size, file_checksum, .. } => {
                Some(
                    ReceiverState {
                        transfer_id,
                        filename: sanitize_filename(&filename),
                        file_size,
                        expected_checksum: file_checksum,
                        received_size: 0,
                        next_chunk_index: 0,
                        hasher: sha256_new(),
                        bytes: Ghost(Seq::empty()),
                    },
                )
            },
            _ => None,
        }
    }

    /// Are all advertised bytes in? The streaming loop keeps reading
    /// until this holds or the sender says `Complete` or `Cancel`.
    pub fn is_complete(&self) -> (r: bool)
        ensures
            r == (self.received_size >= self.file_size),
    {
        self.received_size >= self.file_size
    }

    /// Take one message of the streaming phase. A chunk is accepted
    /// exactly when it carries this transfer's id at the expected
    /// index; everything else leaves the stream untouched.
    pub fn step(&mut self, msg: TransferMessage) -> (a: ReceiverAction)
        requires
            old(self).wf(),
        ensures
            final(self).wf(),
            final(self).transfer_id == old(self).transfer_id,
            final(self).filename == old(self).filename,
            final(self).file_size == old(self).file_size,
            final(self).expected_checksum == old(self).expected_checksum,
            old(self).accepts(msg) ==> {
                &&& msg matches TransferMessage::Chunk { data, .. }
                    && (a matches ReceiverAction::WriteChunk(d) && d@ == data@)
                    && final(self).received_body() == old(self).received_body() + data@
                    && final(self).received_size == old(self).received_size + data@.len()
                    && final(self).next_chunk_index == old(self).next_chunk_index + 1
            },
            !old(self).accepts(msg) ==> {
                &&& final(self).received_body() == old(self).received_body()
                &&& final(self).received_size == old(self).received_size
                &&& final(self).next_chunk_index == old(self).next_chunk_index
                &&& (match msg {
                    TransferMessage::Complete { transfer_id, .. } => if transfer_id
                        == old(self).transfer_id {
                        a is Finish
                    } else {
                        a is Ignore
                    },
                    TransferMessage::Cancel { transfer_id } => if transfer_id
                        == old(self).transfer_id {
                        a is CancelTransfer
                    } else {
                        a is Ignore
                    },
                    _ => a is Ignore,
                })
            },
    {
        match msg {
            TransferMessage::Chunk { transfer_id, chunk_index, data } => {
                if transfer_id == self.transfer_id && chunk_index == self.next_chunk_index
                    && data.len() as u64 <= u64::MAX - self.received_size
                    && self.next_chunk_index < u64::MAX {
                    sha256_update(&mut self.hasher, &data);
                    self.received_size = self.received_size + data.len() as u64;
                    self.next_chunk_index = self.next_chunk_index + 1;
                    proof {
                        self.bytes@ = self.bytes@ + data@;
                    }
                    ReceiverAction::WriteChunk(data)
                } else {
                    ReceiverAction::Ignore
                }
            },
            TransferMessage::Complete { transfer_id, .. } => {
                if transfer_id == self.transfer_id {
                    ReceiverAction::Finish
                } else {
                    ReceiverAction::Ignore
                }
            },
            TransferMessage::Cancel { transfer_id } => {
                if transfer_id == self.transfer_id {
                    ReceiverAction::CancelTransfer
                } else {
                    ReceiverAction::Ignore
                }
            },
            _ => ReceiverAction::Ignore,
        }
    }

    /// Close the stream: the hex SHA-256 of everything accepted, and
    /// whether it passes verification. With no advertised checksum the
    /// receive counts as verified; otherwise it is verified exactly
    /// when the computed and advertised spellings agree.
    pub fn finalize(self) -> (r: (String, bool))
        requires
            self.wf(),
        ensures
            r.0@ == hex_of(sha256_of(self.received_body())),
            r.1 == spec_verified(r.0@, self.expected_checksum),
    {
        let ReceiverState { hasher, expected_checksum, .. } = self;
        let digest = sha256_finalize(hasher);
        let calculated = hex_encode(&digest);
        let verified = decide_verified(&calculated, &expected_checksum);
        (calculated, verified)
    }
}

// ---------------------------------------------------------------------
// Filename sanitation
// ---------------------------------------------------------------------

/// A path separator, on either convention.
pub open spec fn is_sep(c: char) -> bool {
    c == '/' || c == '\\'
}

/// The suffix after the last path separator (the whole name when there
/// is none).
pub open spec fn spec_suffix_after_sep(s: Seq<char>) -> Seq<char>
    decreases s.len(),
{
    if s.len() == 0 {
        s
    } else if is_sep(s.last()) {
        Seq::empty()
    } else {
        spec_suffix_after_sep(s.drop_last()).push(s.last())
    }
}

/// The name a received file is stored under: the advertised name cut
/// to its basename, with the empty name and the dot names replaced, so
/// a hostile `filename` cannot climb out of the downloads directory.
pub open spec fn spec_sanitized_filename(s: Seq<char>) -> Seq<char> {
    let b = spec_suffix_after_sep(s);
    if b.len() == 0 || b == seq!['.'] || b == seq!['.', '.'] {
        "unknown"@
    } else {
        b
    }
}

/// With no separator at or after position `k + 1`, the suffix after
/// the last separator is everything after position `k`.
proof fn lemma_suffix_from_scan(s: Seq<char>, k: int)
    requires
        -1 <= k < s.len(),
        k >= 0 ==> is_sep(s[k]),
        forall|j: int| k < j < s.len() ==> !is_sep(#[trigger] s[j]),
    ensures
        spec_suffix_after_sep(s) == s.subrange(k + 1, s.len() as int),
    decreases s.len() - k,
{
    if k == s.len() - 1 {
        if k >= 0 {
            assert(spec_suffix_after_sep(s) == Seq::<char>::empty());
            assert(s.subrange(k + 1, s.len() as int) =~= Seq::<char>::empty());
        } else {
            assert(s.len() == 0);
            assert(s.subrange(0, 0) =~= s);
        }
    } else {
        assert(!is_sep(s.last()));
        lemma_suffix_from_scan(s.drop_last(), k);
        assert(spec_suffix_after_sep(s) == spec_suffix_after_sep(s.drop_last()).push(s.last()));
        assert(s.drop_last().subrange(k + 1, s.len() - 1).push(s.last()) =~= s.subrange(
            k + 1,
            s.len() as int,
        ));
    }
}

/// Cut an advertised file name down to the basename it is stored
/// under.
pub fn sanitize_filename(name: &str) -> (r: String)
    ensures
        r@ == spec_sanitized_filename(name@),
{
    let n = name.unicode_len();
    let mut last_sep: Option<usize> = None;
    let mut i: usize = 0;
    while i < n
        invariant
            n == name@.len(),
            i <= n,
            match last_sep {
                Some(k) => k < i && is_sep(name@[k as int]) && (forall|j: int|
                    k < j < i ==> !is_sep(#[trigger] name@[j])),
                None => forall|j: int| 0 <= j < i ==> !is_sep(#[trigger] name@[j]),
            },
        decreases n - i,
    {
        let c = name.get_char(i);
        if c == '/' || c == '\\' {
            last_sep = Some(i);
        }
        i += 1;
    }
    let from: usize = match last_sep {
        Some(k) => k + 1,
        None => 0,
    };
    proof {
        match last_sep {
            Some(k) => lemma_suffix_from_scan(name@, k as int),
            None => lemma_suffix_from_scan(name@, -1),
        }
    }
    let base = name.substring_char(from, n);
    let blen = base.unicode_len();
    let dot = blen >= 1 && base.get_char(0) == '.';
    if blen == 0 || (blen == 1 && dot) || (blen == 2 && dot && base.get_char(1) == '.') {
        proof {
            if blen == 1 {
                assert(base@ =~= seq!['.']);
            }
            if blen == 2 && base@[0] == '.' && base@[1] == '.' {
                assert(base@ =~= seq!['.', '.']);
            }
        }
        String::from_str("unknown")
    } else {
        proof {
            if base@.len() == 1 {
                assert(base@ != seq!['.']) by {
                    assert(!(base@ =~= seq!['.']));
                }
            }
            if base@.len() == 2 {
                assert(base@ != seq!['.', '.']) by {
                    assert(!(base@ =~= seq!['.', '.']));
                }
            }
        }
        base.to_owned()
    }
}

// ---------------------------------------------------------------------
// Sender
// ---------------------------------------------------------------------

/// Why a send ended without streaming the file.
#[derive(Debug)]
pub enum SendError {
    /// The peer accepted some other transfer's id.
    IdMismatch,
    /// The peer rejected the request, perhaps saying why.
    RejectedByPeer { reason: Option<String> },
    /// The peer answered with something that is no answer.
    UnexpectedResponse,
}

/// The opening request of a send, with the media type looked up from
/// the file name.
pub fn build_transfer_request(
    transfer_id: u128,
    filename: String,
    file_path: String,
    file_size: u64,
    file_checksum: Option<String>,
) -> (r: TransferMessage)
    ensures
        r matches TransferMessage::Request {
            transfer_id: t,
            filename: n,
            file_path: p,
            file_size: s,
            file_checksum: c,
            mime_type: m,
        } && t == transfer_id && n == filename && p == file_path && s == file_size
            && c == file_checksum && (m matches Some(mt) ==> mime_of(filename@) matches Some(ms)
            && mt@ == ms) && (m is None ==> mime_of(filename@) is None),
{
    let mime_type = get_mime_type(filename.as_str());
    TransferMessage::Request {
        transfer_id,
        filename,
        file_path,
        file_size,
        file_checksum,
        mime_type,
    }
}

/// Judge the peer's answer to a transfer request: only an `Accept`
/// bearing this transfer's id lets the stream begin; a `Reject`
/// carries the peer's reason out; anything else is a protocol error.
pub fn check_handshake(response: TransferMessage, transfer_id: u128) -> (r: Result<
    (),
    SendError,
>)
    ensures
        match response {
            TransferMessage::Accept { transfer_id: t } => if t == transfer_id {
                r is Ok
            } else {
                r matches Err(e) && e is IdMismatch
            },
            TransferMessage::Reject { reason, .. } => r matches Err(e)
                && (e matches SendError::RejectedByPeer { reason: why } && why == reason),
            _ => r matches Err(e) && e is UnexpectedResponse,
        },
{
    match response {
        TransferMessage::Accept { transfer_id: t } => {
            if t == transfer_id {
                Ok(())
            } else {
                Err(SendError::IdMismatch)
            }
        },
        TransferMessage::Reject { transfer_id: _, reason } => {
            Err(SendError::RejectedByPeer { reason })
        },
        _ => Err(SendError::UnexpectedResponse),
    }
}

// ---------------------------------------------------------------------
// Concurrency guardrail
// ---------------------------------------------------------------------

/// The shared permit pool: senders and receivers alike take one slot
/// before doing I/O and give it back on any exit path. With no slot
/// free a transfer waits; it does not fail.
pub struct TransferSlots {
    available: usize,
    max_concurrent: usize,
}

impl TransferSlots {
    pub closed spec fn spec_available(self) -> usize {
        self.available
    }

    pub closed spec fn spec_max(self) -> usize {
        self.max_concurrent
    }

    pub open spec fn wf(self) -> bool {
        self.spec_available() <= self.spec_max()
    }

    /// A full pool of `max_concurrent` permits.
    pub fn new(max_concurrent: usize) -> (s: TransferSlots)
        ensures
            s.wf(),
            s.spec_available() == max_concurrent,
            s.spec_max() == max_concurrent,
    {
        TransferSlots { available: max_concurrent, max_concurrent }
    }

    /// Take a permit if one is free; otherwise the caller must wait
    /// and try again, never erroring out.
    pub fn try_acquire(&mut self) -> (got: bool)
        requires
            old(self).wf(),
        ensures
            final(self).wf(),
            final(self).spec_max() == old(self).spec_max(),
            got == (old(self).spec_available() > 0),
            got ==> final(self).spec_available() == old(self).spec_available() - 1,
            !got ==> final(self).spec_available() == old(self).spec_available(),
    {
        if self.available > 0 {
            self.available = self.available - 1;
            true
        } else {
            false
        }
    }

    /// Give a permit back.
    pub fn release(&mut self)
        requires
            old(self).wf(),
            old(self).spec_available() < old(self).spec_max(),
        ensures
            final(self).wf(),
            final(self).spec_max() == old(self).spec_max(),
            final(self).spec_available() == old(self).spec_available() + 1,
    {
        self.available = self.available + 1;
    }
}

} // verus!
