//! The streaming downloader's decision pipeline and its byte accounting.
//!
//! The downloader itself performs network and file I/O, which lives outside
//! the library. What is verified here is the logic that drives it: when a
//! download attempt fails before a file may be created (a bad status, a
//! missing `Content-Length`), how the destination content grows chunk by
//! chunk in arrival order, that a failed chunk aborts the run and leaves
//! exactly the bytes already written, and how the progress counters advance.

use vstd::prelude::*;

verus! {

/// One read from the response body stream: a chunk of bytes, or a stream
/// error surfaced while reading the next chunk.
pub enum ChunkEvent {
    Data(Vec<u8>),
    Failed,
}

/// The result of one download attempt: whether it succeeded, and the content
/// of the destination file — `None` where the attempt failed before the file
/// was created, `Some` with the bytes written otherwise.
pub struct DownloadOutcome {
    pub success: bool,
    pub file: Option<Vec<u8>>,
}

/// The bytes a chunk event carries; a failed read carries none.
pub open spec fn chunk_bytes(e: ChunkEvent) -> Seq<u8> {
    match e {
        ChunkEvent::Data(d) => d@,
        ChunkEvent::Failed => Seq::empty(),
    }
}

/// The concatenation, in arrival order, of the bytes of the first `n` chunk
/// events.
pub open spec fn concat_chunks(events: Seq<ChunkEvent>, n: int) -> Seq<u8>
    recommends
        0 <= n <= events.len(),
    decreases n,
{
    if n <= 0 {
        Seq::empty()
    } else {
        concat_chunks(events, n - 1) + chunk_bytes(events[n - 1])
    }
}

/// The number of leading data chunks before the first failed read (the whole
/// length where no read fails): exactly these chunks reach the destination.
pub open spec fn clean_len(events: Seq<ChunkEvent>) -> int
    decreases events.len(),
{
    if events.len() == 0 {
        0
    } else if !(events.first() is Data) {
        0
    } else {
        1 + clean_len(events.drop_first())
    }
}

/// Whether a download attempt succeeds: the response status was a success,
/// the total length was declared, and every chunk read yielded data.
pub open spec fn spec_download_success(
    status_ok: bool,
    content_length: Option<u64>,
    events: Seq<ChunkEvent>,
) -> bool {
    &&& status_ok
    &&& content_length is Some
    &&& forall|k: int| 0 <= k < events.len() ==> #[trigger] events[k] is Data
}

/// The destination file content a download attempt leaves behind: no file at
/// all where the response is unusable (so nothing is created or truncated),
/// otherwise the bytes of the chunks before the first failed read, in order.
pub open spec fn spec_download_file(
    status_ok: bool,
    content_length: Option<u64>,
    events: Seq<ChunkEvent>,
) -> Option<Seq<u8>> {
    if status_ok && content_length is Some {
        Some(concat_chunks(events, clean_len(events)))
    } else {
        None
    }
}

/// `clean_len` is the length of the longest data-only prefix.
proof fn lemma_clean_len_bounds(events: Seq<ChunkEvent>)
    ensures
        0 <= clean_len(events) <= events.len(),
        forall|k: int| 0 <= k < clean_len(events) ==> #[trigger] events[k] is Data,
        clean_len(events) < events.len() ==> !(events[clean_len(events)] is Data),
    decreases events.len(),
{
    if events.len() > 0 && events.first() is Data {
        lemma_clean_len_bounds(events.drop_first());
        assert(forall|k: int|
            1 <= k < events.len() ==> #[trigger] events[k] == events.drop_first()[k - 1]);
    }
}

/// A data-only prefix of length `i` pins `clean_len` from below; a non-data
/// event at `i` pins it from above.
proof fn lemma_clean_len_at(events: Seq<ChunkEvent>, i: int)
    requires
        0 <= i <= events.len(),
        forall|k: int| 0 <= k < i ==> #[trigger] events[k] is Data,
        i < events.len() ==> !(events[i] is Data),
    ensures
        clean_len(events) == i,
{
    lemma_clean_len_bounds(events);
    if clean_len(events) < i {
        assert(events[clean_len(events)] is Data);
    }
    if clean_len(events) > i {
        assert(events[i] is Data);
    }
}

/// Runs one download attempt over its decision points: the response status,
/// the declared total, and the sequence of chunk reads. Returns success
/// exactly when the status was a success, a total was declared and no read
/// failed; the destination content is the concatenation, in arrival order,
/// of the chunks before the first failure — and `None` (no file created)
/// where the response was unusable.
pub fn run_download(status_ok: bool, content_length: Option<u64>, chunks: &Vec<ChunkEvent>) -> (r:
    DownloadOutcome)
    ensures
        r.success == spec_download_success(status_ok, content_length, chunks@),
        match r.file {
            Some(f) => spec_download_file(status_ok, content_length, chunks@) == Some(f@),
            None => spec_download_file(status_ok, content_length, chunks@) is None,
        },
        r.success ==> (r.file matches Some(f) && f@ == concat_chunks(chunks@, chunks@.len() as int)),
{
    if !status_ok {
        return DownloadOutcome { success: false, file: None };
    }
    if content_length.is_none() {
        return DownloadOutcome { success: false, file: None };
    }
    let mut file: Vec<u8> = Vec::new();
    let mut i: usize = 0;
    while i < chunks.len()
        invariant
            status_ok,
            content_length is Some,
            0 <= i <= chunks@.len(),
            forall|k: int| 0 <= k < i ==> #[trigger] chunks@[k] is Data,
            file@ == concat_chunks(chunks@, i as int),
        decreases chunks@.len() - i,
    {
        match &chunks[i] {
            ChunkEvent::Data(bytes) => {
                let ghost before = file@;
                let mut j: usize = 0;
                while j < bytes.len()
                    invariant
                        0 <= j <= bytes@.len(),
                        file@ == before + bytes@.take(j as int),
                    decreases bytes@.len() - j,
                {
                    file.push(bytes[j]);
                    proof {
                        assert(before + bytes@.take(j + 1) =~= (before + bytes@.take(j as int)).push(
                            bytes@[j as int],
                        ));
                    }
                    j = j + 1;
                }
                proof {
                    assert(bytes@.take(bytes@.len() as int) =~= bytes@);
                    assert(chunk_bytes(chunks@[i as int]) == bytes@);
                }
            },
            ChunkEvent::Failed => {
                proof {
                    lemma_clean_len_at(chunks@, i as int);
                }
                return DownloadOutcome { success: false, file: Some(file) };
            },
        }
        i = i + 1;
    }
    proof {
        lemma_clean_len_at(chunks@, chunks@.len() as int);
    }
    DownloadOutcome { success: true, file: Some(file) }
}

/// The progress counters of one running transfer: the declared total and the
/// bytes written so far, with the written bytes themselves carried as ghost
/// state. The consumer that performs the real I/O records each chunk here
/// and renders (written, total) however it likes.
pub struct Transfer {
    total: u64,
    written: u64,
    bytes: Ghost<Seq<u8>>,
}

impl Transfer {
    /// The declared total length of the transfer.
    pub closed spec fn spec_total(self) -> u64 {
        self.total
    }

    /// The count of bytes recorded so far.
    pub closed spec fn spec_written(self) -> u64 {
        self.written
    }

    /// The bytes recorded so far, in arrival order.
    pub closed spec fn bytes_seq(self) -> Seq<u8> {
        self.bytes@
    }

    /// The counter always equals the length of the recorded bytes.
    pub closed spec fn wf(self) -> bool {
        self.written == self.bytes@.len()
    }

    /// Starts the accounting for one download: only once a total length is
    /// declared — a response without one never reaches a transfer.
    pub fn begin(content_length: Option<u64>) -> (r: Option<Transfer>)
        ensures
            match r {
                Some(t) => {
                    &&& content_length == Some(t.spec_total())
                    &&& t.spec_written() == 0
                    &&& t.bytes_seq() == Seq::<u8>::empty()
                    &&& t.wf()
                },
                None => content_length is None,
            },
    {
        match content_length {
            Some(total) => Some(
                Transfer { total, written: 0, bytes: Ghost(Seq::empty()) },
            ),
            None => None,
        }
    }

    /// Records one chunk written to the destination: the recorded bytes grow
    /// by exactly the chunk, in order, and the counter advances by its
    /// length. The total never changes.
    pub fn record_chunk(&mut self, chunk: &[u8])
        requires
            old(self).wf(),
            old(self).spec_written() + chunk@.len() <= u64::MAX,
        ensures
            final(self).wf(),
            final(self).spec_total() == old(self).spec_total(),
            final(self).bytes_seq() == old(self).bytes_seq() + chunk@,
            final(self).spec_written() == old(self).spec_written() + chunk@.len(),
    {
        let len = chunk.len() as u64;
        self.written = self.written + len;
        proof {
            self.bytes@ = self.bytes@ + chunk@;
        }
    }

    /// The bytes written so far.
    pub fn written(&self) -> (r: u64)
        ensures
            r == self.spec_written(),
    {
        self.written
    }

    /// The declared total.
    pub fn total(&self) -> (r: u64)
        ensures
            r == self.spec_total(),
    {
        self.total
    }
}

} // verus!
