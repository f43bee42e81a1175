//! The cancellable, progress-reporting push transfer.
//!
//! The worker thread, the file handle and the protocol writer live outside
//! this crate. What is verified here is every decision the worker makes at a
//! read boundary: the counting adapter that turns each chunk read into a
//! progress report, the cooperative-cancellation rule (the next read after
//! the flag is set aborts with a cancellation cause), and the shape of the
//! whole event sequence a transfer delivers to its sink — progress reports
//! strictly before one terminal event.
//!
//! Cancellation is monotonic by construction: the flag observed at each read
//! boundary is modelled by the index of the first read that sees it set, so
//! once set it stays set for every later read.
use vstd::prelude::*;

verus! {

/// The outcome of one read from the local file, as handed to the counting
/// adapter by the worker.
#[derive(Debug)]
pub enum InnerRead {
    /// The read returned this many bytes (a zero-length read means the
    /// source is exhausted).
    Chunk { len: usize },
    /// The source reported end of file.
    Eof,
    /// The read failed; the message describes the fault.
    Failed { message: String },
}

/// Why a transfer ended without completing.
#[derive(Debug)]
pub enum TransferError {
    /// Cooperative cancellation: the controller set the flag and the next
    /// read observed it.
    Cancelled,
    /// A wire-level or file fault, surfaced verbatim.
    Protocol { message: String },
}

/// One event delivered to the transfer's sink, in order, on the worker.
#[derive(Debug)]
pub enum TransferEvent {
    /// Bytes copied so far, out of the source's total size.
    Progress { read_size: usize, total_size: usize },
    /// The protocol write finished; fires once, last.
    Completed,
    /// The transfer failed or was cancelled; fires once, last.
    Error { cause: TransferError },
}

/// Mathematical value of an [`InnerRead`].
pub ghost enum InnerReadModel {
    Chunk { len: int },
    Eof,
    Failed { message: Seq<char> },
}

/// Mathematical value of a [`TransferError`].
pub ghost enum TransferErrorModel {
    Cancelled,
    Protocol { message: Seq<char> },
}

/// Mathematical value of a [`TransferEvent`].
pub ghost enum TransferEventModel {
    Progress { read_size: int, total_size: int },
    Completed,
    Error { cause: TransferErrorModel },
}

impl View for InnerRead {
    type V = InnerReadModel;

    open spec fn view(&self) -> InnerReadModel {
        match self {
            InnerRead::Chunk { len } => InnerReadModel::Chunk { len: *len as int },
            InnerRead::Eof => InnerReadModel::Eof,
            InnerRead::Failed { message } => InnerReadModel::Failed { message: message@ },
        }
    }
}

impl View for TransferError {
    type V = TransferErrorModel;

    open spec fn view(&self) -> TransferErrorModel {
        match self {
            TransferError::Cancelled => TransferErrorModel::Cancelled,
            TransferError::Protocol { message } => TransferErrorModel::Protocol {
                message: message@,
            },
        }
    }
}

impl View for TransferEvent {
    type V = TransferEventModel;

    open spec fn view(&self) -> TransferEventModel {
        match self {
            TransferEvent::Progress { read_size, total_size } => TransferEventModel::Progress {
                read_size: *read_size as int,
                total_size: *total_size as int,
            },
            TransferEvent::Completed => TransferEventModel::Completed,
            TransferEvent::Error { cause } => TransferEventModel::Error { cause: cause@ },
        }
    }
}

/// Whether the cancellation flag is observed set at read boundary `i`:
/// `cancel_at` is the first boundary that sees it, and it never un-sets.
pub open spec fn spec_cancelled_at(cancel_at: Option<int>, i: int) -> bool {
    match cancel_at {
        Some(c) => i >= c,
        None => false,
    }
}

/// The events a transfer delivers, starting at read boundary `i` with
/// `done` bytes already counted, when the successive inner reads behave as
/// `reads` and the flag is first observed at `cancel_at`.
///
/// An empty tail with no cancellation pending models a transfer that is
/// still running: no terminal event has fired yet.
pub open spec fn spec_push_events(
    total: int,
    done: int,
    reads: Seq<InnerReadModel>,
    cancel_at: Option<int>,
    i: int,
) -> Seq<TransferEventModel>
    decreases reads.len() - i,
{
    if spec_cancelled_at(cancel_at, i) {
        seq![TransferEventModel::Error { cause: TransferErrorModel::Cancelled }]
    } else if i < 0 || i >= reads.len() {
        seq![]
    } else {
        match reads[i] {
            InnerReadModel::Eof => seq![TransferEventModel::Completed],
            InnerReadModel::Failed { message } => seq![
                TransferEventModel::Error {
                    cause: TransferErrorModel::Protocol { message },
                },
            ],
            InnerReadModel::Chunk { len } => {
                if len <= 0 {
                    seq![TransferEventModel::Completed]
                } else {
                    seq![
                        TransferEventModel::Progress { read_size: done + len, total_size: total },
                    ] + spec_push_events(total, done + len, reads, cancel_at, i + 1)
                }
            },
        }
    }
}

/// The counting adapter wrapped around the local file: how many bytes the
/// source holds and how many have been forwarded so far.
pub struct ProgressReader {
    pub total_size: usize,
    pub read_size: usize,
}

/// What one pass through the counting adapter decided.
#[derive(Debug)]
pub enum ReadStep {
    /// A chunk was counted and forwarded; report this progress.
    Progress { read_size: usize, total_size: usize },
    /// The source is exhausted; the protocol write can finish.
    Finished,
    /// The cancellation flag was observed; abort with a cancellation cause.
    Cancelled,
    /// The inner read failed; abort with its fault.
    Failed { message: String },
}

impl ProgressReader {
    /// A fresh adapter: nothing read yet out of `total_size` bytes.
    pub fn new(total_size: usize) -> (r: ProgressReader)
        ensures
            r.total_size == total_size,
            r.read_size == 0,
    {
        ProgressReader { total_size, read_size: 0 }
    }

    /// One read through the adapter. `cancelled` is the shared flag as
    /// observed at this read boundary; `inner` is what the underlying read
    /// returned. The adapter's rule: a set flag aborts
    /// before reading, an empty read finishes, and any counted chunk is
    /// reported as progress against the total.
    pub fn read(&mut self, cancelled: bool, inner: &InnerRead) -> (step: ReadStep)
        requires
            old(self).read_size + (match inner@ {
                InnerReadModel::Chunk { len } => len,
                _ => 0,
            }) <= usize::MAX,
        ensures
            final(self).total_size == old(self).total_size,
            cancelled ==> step is Cancelled && final(self).read_size == old(self).read_size,
            !cancelled && (inner@ is Eof || inner@ == (InnerReadModel::Chunk { len: 0int }))
                ==> step is Finished && final(self).read_size == old(self).read_size,
            !cancelled ==> (inner@ matches InnerReadModel::Failed { message } ==> step
                matches ReadStep::Failed { message: m } && m@ == message && final(self).read_size
                == old(self).read_size),
            !cancelled ==> (forall|len: int|
                inner@ == InnerReadModel::Chunk { len } && len > 0 ==> final(self).read_size
                    == old(self).read_size + len && step == (ReadStep::Progress {
                    read_size: (old(self).read_size + len) as usize,
                    total_size: old(self).total_size,
                })),
    {
        if cancelled {
            return ReadStep::Cancelled;
        }
        match inner {
            InnerRead::Eof => ReadStep::Finished,
            InnerRead::Failed { message } => ReadStep::Failed { message: message.clone() },
            InnerRead::Chunk { len } => {
                if *len == 0 {
                    ReadStep::Finished
                } else {
                    self.read_size = self.read_size + *len;
                    ReadStep::Progress { read_size: self.read_size, total_size: self.total_size }
                }
            },
        }
    }
}

/// The controller's handle on one outstanding push: the cancellation flag
/// it shares with the worker. The flag starts clear, and no operation
/// clears it again — cancellation is monotonic, so once the worker has
/// observed it set, every later read boundary sees it set too.
pub struct ADBDevicePushTransfer {
    pub cancelled: bool,
}

impl ADBDevicePushTransfer {
    /// A fresh transfer: not cancelled.
    pub fn new() -> (r: ADBDevicePushTransfer)
        ensures
            !r.cancelled,
    {
        ADBDevicePushTransfer { cancelled: false }
    }

    /// Request cooperative cancellation: the next read the worker attempts
    /// after this aborts with a cancellation cause.
    pub fn cancel(&mut self)
        ensures
            final(self).cancelled,
    {
        self.cancelled = true;
    }

    /// The flag as the worker observes it at a read boundary.
    pub fn is_cancelled(&self) -> (r: bool)
        ensures
            r == self.cancelled,
    {
        self.cancelled
    }
}

/// Total number of bytes the chunk reads of `reads` deliver.
pub open spec fn spec_chunk_sum(reads: Seq<InnerReadModel>) -> int
    decreases reads.len(),
{
    if reads.len() == 0 {
        0
    } else {
        (match reads[0] {
            InnerReadModel::Chunk { len } => len,
            _ => 0,
        }) + spec_chunk_sum(reads.drop_first())
    }
}

/// Every chunk length is non-negative, so the sum is too.
pub proof fn lemma_chunk_sum_nonneg(reads: Seq<InnerReadModel>)
    requires
        forall|j: int|
            0 <= j < reads.len() ==> (#[trigger] reads[j] matches InnerReadModel::Chunk { len }
                ==> len >= 0),
    ensures
        spec_chunk_sum(reads) >= 0,
    decreases reads.len(),
{
    if reads.len() > 0 {
        lemma_chunk_sum_nonneg(reads.drop_first());
    }
}

/// Splitting the sum at the first read.
pub proof fn lemma_chunk_sum_drop_first(reads: Seq<InnerReadModel>, i: int)
    requires
        0 <= i < reads.len(),
    ensures
        spec_chunk_sum(reads.subrange(i, reads.len() as int)) == (match reads[i] {
            InnerReadModel::Chunk { len } => len,
            _ => 0,
        }) + spec_chunk_sum(reads.subrange(i + 1, reads.len() as int)),
{
    let tail = reads.subrange(i, reads.len() as int);
    assert(tail.drop_first() =~= reads.subrange(i + 1, reads.len() as int));
}

/// The chunk length of one read, zero for anything that is not a chunk.
pub open spec fn spec_chunk_len(r: InnerReadModel) -> int {
    match r {
        InnerReadModel::Chunk { len } => len,
        _ => 0,
    }
}

/// Run one whole transfer against a recorded behaviour of the outside
/// world: `reads` is what the successive inner reads return, `cancel_at`
/// the first read boundary at which the shared flag is observed set. The
/// returned events are exactly the model's, in order: what the worker hands
/// to the sink.
pub fn run_push(total_size: usize, reads: Vec<InnerRead>, cancel_at: Option<usize>) -> (events:
    Vec<TransferEvent>)
    requires
        spec_chunk_sum(reads@.map_values(|r: InnerRead| r@)) <= usize::MAX,
    ensures
        events@.map_values(|e: TransferEvent| e@) =~= spec_push_events(
            total_size as int,
            0,
            reads@.map_values(|r: InnerRead| r@),
            match cancel_at {
                Some(c) => Some(c as int),
                None => None,
            },
            0,
        ),
{
    let ghost read_models = reads@.map_values(|r: InnerRead| r@);
    let ghost cancel_model: Option<int> = match cancel_at {
        Some(c) => Some(c as int),
        None => None,
    };
    let mut reader = ProgressReader::new(total_size);
    let mut events: Vec<TransferEvent> = Vec::new();
    let n = reads.len();
    let mut i: usize = 0;
    proof {
        assert(read_models.subrange(0, n as int) =~= read_models);
        assert(events@.map_values(|e: TransferEvent| e@) =~= Seq::<TransferEventModel>::empty());
    }
    loop
        invariant
            i <= n,
            n == reads@.len(),
            read_models == reads@.map_values(|r: InnerRead| r@),
            cancel_model == (match cancel_at {
                Some(c) => Some(c as int),
                None => None,
            }),
            reader.total_size == total_size,
            reader.read_size + spec_chunk_sum(read_models.subrange(i as int, n as int))
                <= usize::MAX,
            spec_push_events(total_size as int, 0, read_models, cancel_model, 0) =~= events@
                .map_values(|e: TransferEvent| e@) + spec_push_events(
                total_size as int,
                reader.read_size as int,
                read_models,
                cancel_model,
                i as int,
            ),
        decreases n - i,
    {
        let cancelled = match cancel_at {
            Some(c) => i >= c,
            None => false,
        };
        proof {
            assert(spec_cancelled_at(cancel_model, i as int) == cancelled);
        }
        if cancelled {
            events.push(TransferEvent::Error { cause: TransferError::Cancelled });
            return events;
        }
        if i == n {
            proof {
                assert(spec_push_events(
                    total_size as int,
                    reader.read_size as int,
                    read_models,
                    cancel_model,
                    i as int,
                ) =~= Seq::<TransferEventModel>::empty());
            }
            return events;
        }
        proof {
            lemma_chunk_sum_drop_first(read_models, i as int);
            assert(forall|j: int|
                0 <= j < read_models.len() ==> (#[trigger] read_models[j] matches
                    InnerReadModel::Chunk { len } ==> len >= 0));
            lemma_chunk_sum_nonneg(read_models.subrange(i + 1, n as int));
        }
        let ghost old_done = reader.read_size as int;
        let step = reader.read(false, &reads[i]);
        proof {
            assert(reads@[i as int]@ == read_models[i as int]);
        }
        match step {
            ReadStep::Progress { read_size: rs, total_size: ts } => {
                events.push(TransferEvent::Progress { read_size: rs, total_size: ts });
            },
            ReadStep::Finished => {
                events.push(TransferEvent::Completed);
                return events;
            },
            ReadStep::Cancelled => {
                proof {
                    assert(false);
                }
                return events;
            },
            ReadStep::Failed { message } => {
                events.push(TransferEvent::Error { cause: TransferError::Protocol { message } });
                return events;
            },
        }
        i = i + 1;
    }
}

/// A terminal event: exactly one of completion or error ends a transfer.
pub open spec fn spec_is_terminal(e: TransferEventModel) -> bool {
    e is Completed || e is Error
}

/// The byte count a progress report carries (meaningless for other events).
pub open spec fn spec_progress_value(e: TransferEventModel) -> int {
    match e {
        TransferEventModel::Progress { read_size, .. } => read_size,
        _ => -1,
    }
}

/// Termination is always last: in any delivered event sequence, every event
/// before the final one is a progress report, so at most one terminal event
/// fires and no progress follows it.
pub proof fn lemma_terminal_is_last(
    total: int,
    done: int,
    reads: Seq<InnerReadModel>,
    cancel_at: Option<int>,
    i: int,
)
    ensures
        forall|j: int|
            0 <= j < spec_push_events(total, done, reads, cancel_at, i).len() - 1 ==> !spec_is_terminal(
                #[trigger] spec_push_events(total, done, reads, cancel_at, i)[j],
            ),
    decreases reads.len() - i,
{
    let evs = spec_push_events(total, done, reads, cancel_at, i);
    if spec_cancelled_at(cancel_at, i) {
        assert(evs.len() <= 1);
    } else if i < 0 || i >= reads.len() {
        assert(evs.len() <= 1);
    } else if !(reads[i] is Chunk && spec_chunk_len(reads[i]) > 0) {
        assert(evs.len() <= 1) by {
            match reads[i] {
                InnerReadModel::Eof => {},
                InnerReadModel::Failed { .. } => {},
                InnerReadModel::Chunk { .. } => {},
            }
        };
    } else {
        {
            let len = spec_chunk_len(reads[i]);
            let rest = spec_push_events(total, done + len, reads, cancel_at, i + 1);
            lemma_terminal_is_last(total, done + len, reads, cancel_at, i + 1);
            assert(evs == seq![
                TransferEventModel::Progress { read_size: done + len, total_size: total },
            ] + rest);
            assert forall|j: int| 0 <= j < evs.len() - 1 implies !spec_is_terminal(
                #[trigger] evs[j],
            ) by {
                if j > 0 {
                    assert(evs[j] == rest[j - 1]);
                }
            };
        }
    }
}

/// Every progress value in a transfer's events is at least the byte count
/// already done when the trace starts.
pub proof fn lemma_progress_at_least_done(
    total: int,
    done: int,
    reads: Seq<InnerReadModel>,
    cancel_at: Option<int>,
    i: int,
)
    ensures
        forall|j: int|
            0 <= j < spec_push_events(total, done, reads, cancel_at, i).len()
                && #[trigger] spec_push_events(total, done, reads, cancel_at, i)[j] is Progress
                ==> spec_progress_value(spec_push_events(total, done, reads, cancel_at, i)[j])
                >= done,
    decreases reads.len() - i,
{
    let evs = spec_push_events(total, done, reads, cancel_at, i);
    if !(!spec_cancelled_at(cancel_at, i) && 0 <= i < reads.len() && reads[i] is Chunk
        && spec_chunk_len(reads[i]) > 0) {
        assert(forall|j: int| 0 <= j < evs.len() ==> !(#[trigger] evs[j] is Progress));
    } else {
        {
            let len = spec_chunk_len(reads[i]);
            let rest = spec_push_events(total, done + len, reads, cancel_at, i + 1);
            lemma_progress_at_least_done(total, done + len, reads, cancel_at, i + 1);
            assert(evs == seq![
                TransferEventModel::Progress { read_size: done + len, total_size: total },
            ] + rest);
            assert forall|j: int|
                0 <= j < evs.len() && #[trigger] evs[j] is Progress implies spec_progress_value(
                evs[j],
            ) >= done by {
                if j > 0 {
                    assert(evs[j] == rest[j - 1]);
                }
            };
        }
    }
}

/// The progress sequence of any transfer is non-decreasing: a later
/// progress report never carries fewer bytes than an earlier one.
pub proof fn lemma_progress_monotone(
    total: int,
    done: int,
    reads: Seq<InnerReadModel>,
    cancel_at: Option<int>,
    i: int,
)
    ensures
        forall|j: int, k: int|
            0 <= j < k < spec_push_events(total, done, reads, cancel_at, i).len()
                && #[trigger] spec_push_events(total, done, reads, cancel_at, i)[j] is Progress
                && #[trigger] spec_push_events(total, done, reads, cancel_at, i)[k] is Progress
                ==> spec_progress_value(spec_push_events(total, done, reads, cancel_at, i)[j])
                <= spec_progress_value(spec_push_events(total, done, reads, cancel_at, i)[k]),
    decreases reads.len() - i,
{
    let evs = spec_push_events(total, done, reads, cancel_at, i);
    if !(!spec_cancelled_at(cancel_at, i) && 0 <= i < reads.len() && reads[i] is Chunk
        && spec_chunk_len(reads[i]) > 0) {
        assert(evs.len() <= 1);
    } else {
        {
            let len = spec_chunk_len(reads[i]);
            let rest = spec_push_events(total, done + len, reads, cancel_at, i + 1);
            lemma_progress_monotone(total, done + len, reads, cancel_at, i + 1);
            assert(evs == seq![
                TransferEventModel::Progress { read_size: done + len, total_size: total },
            ] + rest);
            lemma_progress_at_least_done(total, done + len, reads, cancel_at, i + 1);
            assert forall|j: int, k: int|
                0 <= j < k < evs.len() && #[trigger] evs[j] is Progress && #[trigger] evs[k]
                    is Progress implies spec_progress_value(evs[j]) <= spec_progress_value(
                evs[k],
            ) by {
                assert(evs[k] == rest[k - 1]);
                if j == 0 {
                    assert(spec_progress_value(evs[j]) == done + len);
                } else {
                    assert(evs[j] == rest[j - 1]);
                }
            };
        }
    }
}

/// A successful read-through of the source: some chunk reads, each
/// delivering at least one byte, then end of file.
pub open spec fn spec_successful_trace(reads: Seq<InnerReadModel>, i: int) -> bool {
    &&& 0 <= i < reads.len()
    &&& reads.last() is Eof
    &&& forall|j: int|
        i <= j < reads.len() - 1 ==> (#[trigger] reads[j] matches InnerReadModel::Chunk { len }
            && len > 0)
}

/// A successful, non-cancelled transfer delivers one progress report per
/// chunk and then completes; the events are all progress reports except the
/// final completion, and the last progress report carries exactly the
/// number of bytes the source delivered.
pub proof fn lemma_successful_push(
    total: int,
    done: int,
    reads: Seq<InnerReadModel>,
    i: int,
)
    requires
        spec_successful_trace(reads, i),
        done + spec_chunk_sum(reads.subrange(i, reads.len() as int)) == total,
    ensures
        ({
            let evs = spec_push_events(total, done, reads, None, i);
            &&& evs.len() == reads.len() - i
            &&& evs.last() == TransferEventModel::Completed
            &&& forall|j: int| 0 <= j < evs.len() - 1 ==> #[trigger] evs[j] is Progress
            &&& evs.len() >= 2 ==> evs[evs.len() - 2] == (TransferEventModel::Progress {
                read_size: total,
                total_size: total,
            })
        }),
    decreases reads.len() - i,
{
    let evs = spec_push_events(total, done, reads, None, i);
    lemma_chunk_sum_drop_first(reads, i);
    if i == reads.len() - 1 {
        assert(reads[i] is Eof);
        assert(reads.subrange(i + 1, reads.len() as int).len() == 0);
        assert(evs =~= seq![TransferEventModel::Completed]);
    } else {
        assert(reads[i] is Chunk && spec_chunk_len(reads[i]) > 0);
        let len = spec_chunk_len(reads[i]);
        let rest = spec_push_events(total, done + len, reads, None, i + 1);
        lemma_successful_push(total, done + len, reads, i + 1);
        assert(evs[0] == (TransferEventModel::Progress {
            read_size: done + len,
            total_size: total,
        }));
        assert(evs.last() == rest.last());
        if evs.len() >= 2 {
            if rest.len() >= 2 {
                assert(evs[evs.len() - 2] == rest[rest.len() - 2]);
            } else {
                // The next read is the final end-of-file, so this chunk was
                // the last: its progress report carries the whole total.
                assert(i + 1 == reads.len() - 1);
                assert(spec_chunk_sum(reads.subrange(i + 1, reads.len() as int)) == 0) by {
                    lemma_chunk_sum_drop_first(reads, i + 1);
                    assert(reads.subrange(i + 2, reads.len() as int).len() == 0);
                }
                assert(done + len == total);
                assert(evs[evs.len() - 2] == evs[0]);
            }
        }
    }
}

/// Cancelling, observed from read boundary `c` on, ends the transfer with a
/// cancellation error after exactly the progress reports of the reads that
/// finished first: completion never fires on a cancelled transfer.
pub proof fn lemma_cancelled_push(
    total: int,
    done: int,
    reads: Seq<InnerReadModel>,
    c: int,
    i: int,
)
    requires
        0 <= i <= c,
        c <= reads.len(),
        forall|j: int|
            i <= j < c ==> (#[trigger] reads[j] matches InnerReadModel::Chunk { len } && len > 0),
    ensures
        ({
            let evs = spec_push_events(total, done, reads, Some(c), i);
            &&& evs.len() == c - i + 1
            &&& forall|j: int| 0 <= j < evs.len() - 1 ==> #[trigger] evs[j] is Progress
            &&& evs.last() == (TransferEventModel::Error {
                cause: TransferErrorModel::Cancelled,
            })
            &&& forall|j: int| 0 <= j < evs.len() ==> !(#[trigger] evs[j] is Completed)
        }),
    decreases c - i,
{
    let evs = spec_push_events(total, done, reads, Some(c), i);
    if i == c {
        assert(evs =~= seq![
            TransferEventModel::Error { cause: TransferErrorModel::Cancelled },
        ]);
    } else {
        assert(reads[i] is Chunk && spec_chunk_len(reads[i]) > 0);
        let len = spec_chunk_len(reads[i]);
        let rest = spec_push_events(total, done + len, reads, Some(c), i + 1);
        lemma_cancelled_push(total, done + len, reads, c, i + 1);
        assert(evs.last() == rest.last());
        assert forall|j: int| 0 <= j < evs.len() - 1 implies #[trigger] evs[j] is Progress by {
            if j > 0 {
                assert(evs[j] == rest[j - 1]);
            }
        };
        assert forall|j: int| 0 <= j < evs.len() implies !(#[trigger] evs[j] is Completed) by {
            if j > 0 {
                assert(evs[j] == rest[j - 1]);
            }
        };
    }
}

/// Cancelling before any read completes delivers exactly one event: an
/// error with a cancellation cause. Completion never fires.
pub proof fn lemma_cancel_before_first_read(total: int, reads: Seq<InnerReadModel>)
    ensures
        spec_push_events(total, 0, reads, Some(0), 0) =~= seq![
            TransferEventModel::Error { cause: TransferErrorModel::Cancelled },
        ],
{
}

} // verus!
