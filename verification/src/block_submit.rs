//! Decisions of a block data transfer that is split into chunks and spread
//! over the device's request queues: which chunk goes to which queue next,
//! how a refused or failed submission is handled, how completions are
//! harvested and when the transfer is over. The caller plans chunks,
//! submits them to the driver, waits and polls, and reports back.
use vstd::prelude::*;

use crate::block_runtime::{
    ActiveQueue, BlockGeometry, BlockIoCounters, DataIoGate, RequestOp, WindowEntry, map_blk_err_to_ax_err,
    queue_has_window, select_active_queue, spec_queue_has_window, spec_record_io, spec_select_from, validate_io,
};
use crate::errno::AxError;
use crate::sdmmc_rdif::BlkError;

verus! {

broadcast use {vstd::seq_lib::group_to_multiset_ensures, vstd::multiset::group_multiset_axioms};

/// A piece of a transfer planned for one request.
#[derive(Clone, Copy, Debug, PartialEq, Eq, Structural)]
pub struct TransferChunk {
    pub lba: u64,
    pub block_count: u32,
    pub byte_offset: usize,
    pub byte_len: usize,
}

/// Direction of the DMA buffers of a transfer.
#[derive(Clone, Copy, Debug, PartialEq, Eq, Structural)]
pub enum DmaDirection {
    FromDevice,
    ToDevice,
}

/// DMA direction of a data transfer; only reads and writes move data.
pub fn io_direction(op: RequestOp) -> (r: Result<DmaDirection, AxError>)
    ensures
        op == RequestOp::Read ==> r == Ok::<DmaDirection, AxError>(DmaDirection::FromDevice),
        op == RequestOp::Write ==> r == Ok::<DmaDirection, AxError>(DmaDirection::ToDevice),
        !(op == RequestOp::Read || op == RequestOp::Write) ==> r == Err::<DmaDirection, AxError>(AxError::InvalidInput),
{
    match op {
        RequestOp::Read => Ok(DmaDirection::FromDevice),
        RequestOp::Write => Ok(DmaDirection::ToDevice),
        _ => Err(AxError::InvalidInput),
    }
}

/// How a data transfer starts.
pub enum SubmitStart {
    /// The transfer is admitted: its state and the direction of its
    /// buffers. The data operation it holds ends with `finish_data_io`.
    Started(SubmitIo, DmaDirection),
    /// A flush holds the barrier: wait for its release and start again.
    WaitFlush,
}

/// Whether a transfer of `len` bytes at `block_id` on a device with
/// geometry `info` is refused before anything is submitted: a poisoned
/// device, a transfer that is not a whole number of blocks inside the
/// device, or a request that moves no data.
pub open spec fn spec_submit_refused(info: BlockGeometry, poisoned: bool, op: RequestOp, block_id: u64, len: usize) -> bool {
    ||| poisoned
    ||| !(info.logical_block_size != 0 && len % info.logical_block_size == 0
        && block_id + len / info.logical_block_size <= info.num_blocks)
    ||| !(op == RequestOp::Read || op == RequestOp::Write)
}

/// Starts a data transfer of `len` bytes at `block_id` over `queues` (whose
/// first queue has geometry `info`). A poisoned device, bad geometry or a
/// request that moves no data is refused with `InvalidInput`, leaving the
/// gate and the statistics as they were. Otherwise, while a flush holds
/// the barrier the caller must wait; once admitted the transfer holds one
/// data operation, is counted in the statistics, and starts with nothing
/// submitted.
pub fn begin_submit_io(
    gate: &mut DataIoGate,
    counters: &mut BlockIoCounters,
    info: BlockGeometry,
    poisoned: bool,
    op: RequestOp,
    block_id: u64,
    len: usize,
    queues: Vec<ActiveQueue>,
) -> (r: Result<SubmitStart, AxError>)
    requires
        old(gate).active_data_ops < usize::MAX,
        window_sum(queues@) <= usize::MAX,
    ensures
        spec_submit_refused(info, poisoned, op, block_id, len) <==> r is Err,
        r is Err ==> r == Err::<SubmitStart, AxError>(AxError::InvalidInput) && *final(gate) == *old(gate)
            && *final(counters) == *old(counters),
        r matches Ok(SubmitStart::WaitFlush) ==> old(gate).flush_active && *final(gate) == *old(gate)
            && *final(counters) == *old(counters),
        r matches Ok(SubmitStart::Started(s, dir)) ==> {
            &&& !old(gate).flush_active
            &&& final(gate).active_data_ops == old(gate).active_data_ops + 1
            &&& final(gate).flush_active == old(gate).flush_active
            &&& *final(counters) == spec_record_io(*old(counters), op, len)
            &&& s.is_fresh(queues@, len)
            &&& dir == (if op == RequestOp::Read { DmaDirection::FromDevice } else { DmaDirection::ToDevice })
        },
        !spec_submit_refused(info, poisoned, op, block_id, len) ==> (r matches Ok(SubmitStart::WaitFlush)
            <==> old(gate).flush_active),
{
    if poisoned {
        return Err(AxError::InvalidInput);
    }
    let valid = validate_io(info, block_id, len);
    if valid.is_err() {
        return Err(AxError::InvalidInput);
    }
    let direction = match io_direction(op) {
        Ok(d) => d,
        Err(e) => {
            return Err(e);
        },
    };
    if !gate.begin_data_io() {
        return Ok(SubmitStart::WaitFlush);
    }
    counters.record_io(op, len);
    Ok(SubmitStart::Started(SubmitIo::new(queues, len), direction))
}

/// What to do next while submitting.
#[derive(Clone, Copy, Debug, PartialEq, Eq, Structural)]
pub enum Submission {
    /// Ask the planner of `queue` for the chunk at the transfer's next byte
    /// offset, and report it with `chunk_planned`.
    Plan(ActiveQueue),
    /// Submit `chunk` on `queue` and report the outcome with `submitted`.
    Submit(ActiveQueue, TransferChunk),
}

/// What follows a submission.
#[derive(Clone, Copy, Debug, PartialEq, Eq, Structural)]
pub enum AfterSubmit {
    /// Keep submitting.
    Continue,
    /// Nothing is in flight and the queue refused the chunk: wait until the
    /// queue with this id makes progress, report it with
    /// `queue_progress`, then stop submitting.
    WaitQueueProgress(usize),
    /// Stop submitting and harvest.
    Stop,
}

/// What follows a harvest.
#[derive(Clone, Copy, Debug, PartialEq, Eq, Structural)]
pub enum AfterHarvest {
    /// The transfer is over; its result is `finish`.
    Finish,
    /// Nothing completed: wait for any in-flight chunk, harvest again and
    /// go on submitting.
    WaitAnyActive,
    /// Go on submitting.
    Continue,
}

pub open spec fn window_sum(queues: Seq<ActiveQueue>) -> int
    decreases queues.len(),
{
    if queues.len() == 0 {
        0
    } else {
        window_sum(queues.drop_last()) + queues.last().window
    }
}

/// First queue of `queues` with index `index` that has room.
pub open spec fn spec_find_queue(queues: Seq<ActiveQueue>, active: Seq<WindowEntry>, index: usize) -> Option<ActiveQueue>
    decreases queues.len(),
{
    if queues.len() == 0 {
        None
    } else if queues[0].index == index && spec_queue_has_window(queues[0], active) {
        Some(queues[0])
    } else {
        spec_find_queue(queues.drop_first(), active, index)
    }
}

/// Result recorded for request `key` among `done`, the first one if it
/// appears more than once.
pub open spec fn spec_lookup(done: Seq<(u64, Result<(), BlkError>)>, key: u64) -> Option<Result<(), BlkError>>
    decreases done.len(),
{
    if done.len() == 0 {
        None
    } else if done[0].0 == key {
        Some(done[0].1)
    } else {
        spec_lookup(done.drop_first(), key)
    }
}

/// Error of the first failed request among `entries`.
pub open spec fn spec_first_error(done: Seq<(u64, Result<(), BlkError>)>, entries: Seq<WindowEntry>) -> Option<BlkError>
    decreases entries.len(),
{
    if entries.len() == 0 {
        None
    } else {
        match spec_lookup(done, entries[0].key) {
            Some(Err(e)) => Some(e),
            _ => spec_first_error(done, entries.drop_first()),
        }
    }
}

/// State of a chunked transfer of `buf_len` bytes.
pub struct SubmitIo {
    /// Queues of the device with their windows.
    pub queues: Vec<ActiveQueue>,
    /// Chunks that may be in flight at once.
    pub total_window: usize,
    pub buf_len: usize,
    /// Chunks in flight.
    pub active: Vec<WindowEntry>,
    /// A chunk refused by its queue, to be submitted again on that queue.
    pub deferred: Option<(usize, TransferChunk)>,
    /// The first error met; no further chunk is submitted after it.
    pub first_error: Option<BlkError>,
    /// Round-robin position over the queues.
    pub cursor: usize,
    /// End of the furthest chunk submitted so far.
    pub next_byte_offset: usize,
}

impl SubmitIo {
    /// A deferred chunk's end fits in the address space.
    pub open spec fn wf(&self) -> bool {
        match self.deferred {
            Some((_, c)) => c.byte_offset + c.byte_len <= usize::MAX,
            None => true,
        }
    }

    /// The state of a transfer of `buf_len` bytes over `queues` that has
    /// not submitted anything yet.
    pub open spec fn is_fresh(&self, queues: Seq<ActiveQueue>, buf_len: usize) -> bool {
        &&& self.wf()
        &&& self.queues@ == queues
        &&& self.total_window == window_sum(queues)
        &&& self.buf_len == buf_len
        &&& self.active@.len() == 0
        &&& self.deferred is None
        &&& self.first_error is None
        &&& self.cursor == 0
        &&& self.next_byte_offset == 0
    }

    /// A transfer of `buf_len` bytes over `queues`, nothing in flight yet.
    pub fn new(queues: Vec<ActiveQueue>, buf_len: usize) -> (s: SubmitIo)
        requires
            window_sum(queues@) <= usize::MAX,
        ensures
            s.is_fresh(queues@, buf_len),
            s.wf(),
            s.queues@ == queues@,
            s.total_window == window_sum(queues@),
            s.buf_len == buf_len,
            s.active@.len() == 0,
            s.deferred is None,
            s.first_error is None,
            s.cursor == 0,
            s.next_byte_offset == 0,
    {
        let mut total: usize = 0;
        let mut i: usize = 0;
        while i < queues.len()
            invariant
                i <= queues@.len(),
                window_sum(queues@) <= usize::MAX,
                total == window_sum(queues@.subrange(0, i as int)),
            decreases queues.len() - i,
        {
            proof {
                lemma_window_sum_prefix_le(queues@, (i + 1) as int);
                assert(queues@.subrange(0, i + 1).drop_last() =~= queues@.subrange(0, i as int));
            }
            total = total + queues[i].window;
            i = i + 1;
        }
        assert(queues@.subrange(0, queues@.len() as int) =~= queues@);
        SubmitIo {
            queues,
            total_window: total,
            buf_len,
            active: Vec::new(),
            deferred: None,
            first_error: None,
            cursor: 0,
            next_byte_offset: 0,
        }
    }

    /// The next submission, or `None` when submitting stops for now: after
    /// an error, with every window full, when a refused chunk's queue still
    /// has no room, or when the round robin finds no queue with room. A
    /// refused chunk goes first, to its own queue.
    pub fn next_submission(&mut self) -> (r: Option<Submission>)
        requires
            old(self).wf(),
        ensures
            final(self).wf(),
            final(self).queues == old(self).queues,
            final(self).total_window == old(self).total_window,
            final(self).buf_len == old(self).buf_len,
            final(self).active == old(self).active,
            final(self).first_error == old(self).first_error,
            old(self).first_error is Some || old(self).active@.len() >= old(self).total_window ==> r is None
                && final(self).deferred == old(self).deferred && final(self).cursor == old(self).cursor
                && final(self).next_byte_offset == old(self).next_byte_offset,
            old(self).first_error is None && old(self).active@.len() < old(self).total_window ==> match old(self).deferred {
                Some((qi, c)) => match spec_find_queue(old(self).queues@, old(self).active@, qi) {
                    Some(q) => {
                        &&& r == Some(Submission::Submit(q, c))
                        &&& final(self).deferred is None
                        &&& final(self).cursor == old(self).cursor
                        &&& final(self).next_byte_offset == (if old(self).next_byte_offset >= c.byte_offset + c.byte_len {
                            old(self).next_byte_offset as int
                        } else {
                            c.byte_offset + c.byte_len
                        })
                    },
                    None => r is None && final(self).deferred == old(self).deferred && final(self).cursor
                        == old(self).cursor && final(self).next_byte_offset == old(self).next_byte_offset,
                },
                None => {
                    let sel = spec_select_from(old(self).queues@, old(self).active@, old(self).cursor, old(self).queues@.len());
                    &&& final(self).cursor == sel.1
                    &&& final(self).deferred is None
                    &&& final(self).next_byte_offset == old(self).next_byte_offset
                    &&& r == (match sel.0 {
                        Some(q) => Some(Submission::Plan(q)),
                        None => None,
                    })
                },
            },
    {
        if self.first_error.is_some() || self.active.len() >= self.total_window {
            return None;
        }
        match self.deferred {
            Some((qi, c)) => {
                let found = find_queue(&self.queues, &self.active, qi);
                match found {
                    Some(q) => {
                        self.deferred = None;
                        let end = c.byte_offset + c.byte_len;
                        if self.next_byte_offset < end {
                            self.next_byte_offset = end;
                        }
                        Some(Submission::Submit(q, c))
                    },
                    None => None,
                }
            },
            None => {
                match select_active_queue(self.queues.as_slice(), self.active.as_slice(), &mut self.cursor) {
                    Some(q) => Some(Submission::Plan(q)),
                    None => None,
                }
            },
        }
    }

    /// The planner's answer for `queue`: no chunk stops submitting;
    /// otherwise the chunk is submitted on that queue.
    pub fn chunk_planned(&mut self, queue: ActiveQueue, chunk: Option<TransferChunk>) -> (r: Option<Submission>)
        requires
            old(self).wf(),
            chunk matches Some(c) ==> c.byte_offset + c.byte_len <= usize::MAX,
        ensures
            final(self).wf(),
            final(self).queues == old(self).queues,
            final(self).active == old(self).active,
            final(self).first_error == old(self).first_error,
            final(self).deferred == old(self).deferred,
            final(self).cursor == old(self).cursor,
            final(self).total_window == old(self).total_window,
            final(self).buf_len == old(self).buf_len,
            chunk is None ==> r is None && final(self).next_byte_offset == old(self).next_byte_offset,
            chunk matches Some(c) ==> r == Some(Submission::Submit(queue, c)) && final(self).next_byte_offset == (if old(
                self,
            ).next_byte_offset >= c.byte_offset + c.byte_len {
                old(self).next_byte_offset as int
            } else {
                c.byte_offset + c.byte_len
            }),
    {
        match chunk {
            None => None,
            Some(c) => {
                let end = c.byte_offset + c.byte_len;
                if self.next_byte_offset < end {
                    self.next_byte_offset = end;
                }
                Some(Submission::Submit(queue, c))
            },
        }
    }

    /// The driver's answer to submitting `chunk` on `queue`: an accepted
    /// chunk is in flight; a refused one is deferred to the same queue and
    /// its bytes count as not yet submitted (and with nothing in flight the
    /// queue must make progress first); any other error is the transfer's
    /// first error.
    pub fn submitted(&mut self, queue: ActiveQueue, chunk: TransferChunk, result: Result<WindowEntry, BlkError>) -> (r: AfterSubmit)
        requires
            old(self).wf(),
            old(self).first_error is None,
            chunk.byte_offset + chunk.byte_len <= usize::MAX,
        ensures
            final(self).wf(),
            final(self).queues == old(self).queues,
            final(self).cursor == old(self).cursor,
            final(self).total_window == old(self).total_window,
            final(self).buf_len == old(self).buf_len,
            result matches Ok(e) ==> {
                &&& final(self).active@ == old(self).active@.push(e)
                &&& r == AfterSubmit::Continue
                &&& final(self).deferred == old(self).deferred
                &&& final(self).first_error is None
                &&& final(self).next_byte_offset == old(self).next_byte_offset
            },
            result == Err::<WindowEntry, BlkError>(BlkError::Retry) ==> {
                &&& final(self).active == old(self).active
                &&& final(self).deferred == Some((queue.index, chunk))
                &&& final(self).next_byte_offset == (if old(self).next_byte_offset <= chunk.byte_offset {
                    old(self).next_byte_offset
                } else {
                    chunk.byte_offset
                })
                &&& final(self).first_error is None
                &&& r == (if old(self).active@.len() == 0 { AfterSubmit::WaitQueueProgress(queue.queue_id) } else { AfterSubmit::Stop })
            },
            result is Err && result->Err_0 != BlkError::Retry ==> {
                &&& final(self).active == old(self).active
                &&& final(self).deferred == old(self).deferred
                &&& final(self).next_byte_offset == old(self).next_byte_offset
                &&& final(self).first_error == Some(result->Err_0)
                &&& r == AfterSubmit::Stop
            },
    {
        match result {
            Ok(e) => {
                self.active.push(e);
                AfterSubmit::Continue
            },
            Err(BlkError::Retry) => {
                self.deferred = Some((queue.index, chunk));
                if chunk.byte_offset < self.next_byte_offset {
                    self.next_byte_offset = chunk.byte_offset;
                }
                if self.active.len() == 0 {
                    AfterSubmit::WaitQueueProgress(queue.queue_id)
                } else {
                    AfterSubmit::Stop
                }
            },
            Err(e) => {
                self.first_error = Some(e);
                AfterSubmit::Stop
            },
        }
    }

    /// Outcome of waiting for a queue to make progress: no progress is an
    /// I/O error.
    pub fn queue_progress(&mut self, progressed: bool)
        requires
            old(self).first_error is None,
        ensures
            final(self).queues == old(self).queues,
            final(self).active == old(self).active,
            final(self).deferred == old(self).deferred,
            final(self).cursor == old(self).cursor,
            final(self).next_byte_offset == old(self).next_byte_offset,
            final(self).total_window == old(self).total_window,
            final(self).buf_len == old(self).buf_len,
            final(self).first_error == (if progressed { None } else { Some(BlkError::Io) }),
    {
        if !progressed {
            self.first_error = Some(BlkError::Io);
        }
    }

    /// Takes the in-flight chunks whose request completed, given the
    /// completion results `done` by request key, and returns them in the
    /// order examined. The first failure among them becomes the first
    /// error unless one was already recorded.
    pub fn harvest(&mut self, done: &[(u64, Result<(), BlkError>)]) -> (completed: Vec<WindowEntry>)
        ensures
            final(self).queues == old(self).queues,
            final(self).deferred == old(self).deferred,
            final(self).cursor == old(self).cursor,
            final(self).next_byte_offset == old(self).next_byte_offset,
            final(self).total_window == old(self).total_window,
            final(self).buf_len == old(self).buf_len,
            final(self).active@.to_multiset().add(completed@.to_multiset()) == old(self).active@.to_multiset(),
            forall|i: int| 0 <= i < final(self).active@.len() ==> spec_lookup(done@, #[trigger] final(self).active@[i].key) is None,
            forall|i: int| 0 <= i < completed@.len() ==> spec_lookup(done@, #[trigger] completed@[i].key) is Some,
            final(self).first_error == (if old(self).first_error is Some {
                old(self).first_error
            } else {
                spec_first_error(done@, completed@)
            }),
    {
        let ghost a0 = self.active@;
        let mut completed: Vec<WindowEntry> = Vec::new();
        let mut idx: usize = 0;
        while idx < self.active.len()
            invariant
                idx <= self.active@.len(),
                self.queues == old(self).queues,
                self.deferred == old(self).deferred,
                self.cursor == old(self).cursor,
                self.next_byte_offset == old(self).next_byte_offset,
                self.total_window == old(self).total_window,
                self.buf_len == old(self).buf_len,
                self.active@.to_multiset().add(completed@.to_multiset()) == a0.to_multiset(),
                forall|i: int| 0 <= i < idx ==> spec_lookup(done@, #[trigger] self.active@[i].key) is None,
                forall|i: int| 0 <= i < completed@.len() ==> spec_lookup(done@, #[trigger] completed@[i].key) is Some,
                self.first_error == (if old(self).first_error is Some {
                    old(self).first_error
                } else {
                    spec_first_error(done@, completed@)
                }),
            decreases self.active@.len() - idx,
        {
            let entry = self.active[idx];
            match lookup(done, entry.key) {
                None => {
                    idx = idx + 1;
                },
                Some(result) => {
                    let ghost a = self.active@;
                    let ghost c = completed@;
                    if self.first_error.is_none() {
                        if let Err(e) = result {
                            self.first_error = Some(e);
                        }
                    }
                    proof {
                        lemma_first_error_push(done@, c, entry);
                    }
                    completed.push(entry);
                    let removed = self.active.swap_remove(idx);
                    proof {
                        lemma_swap_remove_multiset(a, idx as int);
                        assert(completed@.to_multiset() == c.to_multiset().insert(entry));
                        assert(a.contains(entry));
                        assert(a.to_multiset().count(entry) > 0);
                        assert(self.active@.to_multiset().add(completed@.to_multiset()) =~= a.to_multiset().add(c.to_multiset()));
                        assert forall|i: int| 0 <= i < idx implies spec_lookup(done@, #[trigger] self.active@[i].key) is None by {
                            assert(self.active@[i] == a[i]);
                        }
                        assert forall|i: int| 0 <= i < completed@.len() implies spec_lookup(done@, #[trigger] completed@[i].key) is Some by {
                            if i < c.len() {
                                assert(completed@[i] == c[i]);
                            }
                        }
                    }
                },
            }
        }
        completed
    }

    /// What follows a harvest that did or did not complete anything, given
    /// whether the driver was found to break its contract. The transfer is
    /// over after an error on a poisoned device, or when nothing is in
    /// flight and either an error was met or every byte was submitted.
    pub fn after_harvest(&self, progressed: bool, poisoned: bool) -> (r: AfterHarvest)
        ensures
            r == spec_after_harvest(*self, progressed, poisoned),
    {
        if self.first_error.is_some() && poisoned {
            return AfterHarvest::Finish;
        }
        if self.active.len() == 0 {
            if self.first_error.is_some() || (self.deferred.is_none() && self.next_byte_offset >= self.buf_len) {
                AfterHarvest::Finish
            } else {
                AfterHarvest::Continue
            }
        } else if !progressed {
            AfterHarvest::WaitAnyActive
        } else {
            AfterHarvest::Continue
        }
    }

    /// Result of the transfer: the first error, mapped to an interface
    /// error, or success.
    pub fn finish(&self) -> (r: Result<(), AxError>)
        ensures
            match self.first_error {
                Some(e) => r == Err::<(), AxError>(map_blk_err_to_ax_err_spec(e)),
                None => r == Ok::<(), AxError>(()),
            },
    {
        match self.first_error {
            Some(e) => Err(map_blk_err_to_ax_err(e)),
            None => Ok(()),
        }
    }
}

/// Driver requests in flight, each by the id of its queue and the id the
/// driver gave it; no request is listed twice.
pub struct InflightRequests {
    entries: Vec<(usize, u64)>,
}

impl InflightRequests {
    pub closed spec fn spec_entries(&self) -> Seq<(usize, u64)> {
        self.entries@
    }

    pub open spec fn wf(&self) -> bool {
        self.spec_entries().no_duplicates()
    }

    /// Nothing in flight.
    pub fn new() -> (r: InflightRequests)
        ensures
            r.spec_entries() == Seq::<(usize, u64)>::empty(),
            r.wf(),
    {
        InflightRequests { entries: Vec::new() }
    }

    /// Whether request `request_id` of queue `queue_id` is in flight.
    pub fn contains(&self, queue_id: usize, request_id: u64) -> (r: bool)
        ensures
            r == self.spec_entries().contains((queue_id, request_id)),
    {
        let mut i: usize = 0;
        while i < self.entries.len()
            invariant
                i <= self.entries@.len(),
                forall|j: int| 0 <= j < i ==> self.entries@[j] != (queue_id, request_id),
            decreases self.entries.len() - i,
        {
            let e = self.entries[i];
            if e.0 == queue_id && e.1 == request_id {
                return true;
            }
            i = i + 1;
        }
        false
    }

    /// Records a request the driver accepted. A driver that hands out the
    /// id of a request still in flight breaks its contract: the device is
    /// poisoned and the chunk fails with `InvalidRequest`, nothing being
    /// recorded.
    pub fn record_submitted(&mut self, poisoned: &mut bool, queue_id: usize, request_id: u64) -> (r: Result<(), BlkError>)
        requires
            old(self).wf(),
        ensures
            final(self).wf(),
            old(self).spec_entries().contains((queue_id, request_id)) ==> {
                &&& r == Err::<(), BlkError>(BlkError::InvalidRequest)
                &&& *final(poisoned)
                &&& final(self).spec_entries() == old(self).spec_entries()
            },
            !old(self).spec_entries().contains((queue_id, request_id)) ==> {
                &&& r == Ok::<(), BlkError>(())
                &&& *final(poisoned) == *old(poisoned)
                &&& final(self).spec_entries() == old(self).spec_entries().push((queue_id, request_id))
            },
    {
        if self.contains(queue_id, request_id) {
            *poisoned = true;
            return Err(BlkError::InvalidRequest);
        }
        self.entries.push((queue_id, request_id));
        proof {
            let old_e = old(self).spec_entries();
            assert forall|i: int, j: int| 0 <= i < j < self.entries@.len() implies self.entries@[i] != self.entries@[j] by {
                if j == old_e.len() {
                    assert(old_e.contains(old_e[i]));
                }
            }
        }
        Ok(())
    }

    /// Drops request `request_id` of queue `queue_id` once it completed;
    /// the other requests stay in flight.
    pub fn retire(&mut self, queue_id: usize, request_id: u64)
        requires
            old(self).wf(),
        ensures
            final(self).wf(),
            !final(self).spec_entries().contains((queue_id, request_id)),
            forall|e: (usize, u64)| e != (queue_id, request_id) ==> (final(self).spec_entries().contains(e)
                <==> old(self).spec_entries().contains(e)),
    {
        let mut i: usize = 0;
        while i < self.entries.len()
            invariant
                i <= self.entries@.len(),
                self.entries@ == old(self).spec_entries(),
                old(self).spec_entries().no_duplicates(),
                forall|j: int| 0 <= j < i ==> self.entries@[j] != (queue_id, request_id),
            decreases self.entries.len() - i,
        {
            let e = self.entries[i];
            if e.0 == queue_id && e.1 == request_id {
                let ghost before = self.entries@;
                assert(forall|a: int, b: int| 0 <= a < before.len() && 0 <= b < before.len() && a != b ==> before[a] != before[b]);
                self.entries.remove(i);
                proof {
                    assert(self.entries@ =~= before.remove(i as int));
                    assert forall|x: (usize, u64)| x != (queue_id, request_id) implies (self.entries@.contains(x)
                        <==> before.contains(x)) by {
                        if before.contains(x) {
                            let k = choose|k: int| 0 <= k < before.len() && before[k] == x;
                            if k < i {
                                assert(self.entries@[k] == x);
                            } else {
                                assert(k != i);
                                assert(self.entries@[k - 1] == x);
                            }
                        }
                    }
                    assert forall|k: int| 0 <= k < self.entries@.len() implies self.entries@[k] != (queue_id, request_id) by {
                        if k >= i {
                            assert(self.entries@[k] == before[k + 1]);
                            assert(before[k + 1] != before[i as int]);
                        }
                    }
                    assert forall|a: int, b: int| 0 <= a < b < self.entries@.len() implies self.entries@[a] != self.entries@[b] by {
                        let a2 = if a < i { a } else { a + 1 };
                        let b2 = if b < i { b } else { b + 1 };
                        assert(self.entries@[a] == before[a2]);
                        assert(self.entries@[b] == before[b2]);
                    }
                }
                return;
            }
            i = i + 1;
        }
    }
}

pub open spec fn map_blk_err_to_ax_err_spec(err: BlkError) -> AxError {
    match err {
        BlkError::NotSupported => AxError::Unsupported,
        BlkError::Retry => AxError::WouldBlock,
        BlkError::NoMemory => AxError::NoMemory,
        BlkError::InvalidBlockIndex(_) | BlkError::InvalidRequest => AxError::InvalidInput,
        BlkError::Io | BlkError::Other(_) => AxError::Io,
    }
}

/// First queue of `queues` with index `index` that has room.
fn find_queue(queues: &Vec<ActiveQueue>, active: &Vec<WindowEntry>, index: usize) -> (r: Option<ActiveQueue>)
    ensures
        r == spec_find_queue(queues@, active@, index),
{
    let mut i: usize = 0;
    assert(queues@.subrange(0, queues@.len() as int) =~= queues@);
    while i < queues.len()
        invariant
            i <= queues@.len(),
            spec_find_queue(queues@, active@, index) == spec_find_queue(queues@.subrange(i as int, queues@.len() as int), active@, index),
        decreases queues.len() - i,
    {
        let q = queues[i];
        proof {
            let rest = queues@.subrange(i as int, queues@.len() as int);
            assert(rest[0] == q);
            assert(rest.drop_first() =~= queues@.subrange(i + 1, queues@.len() as int));
        }
        if q.index == index && queue_has_window(q, active.as_slice()) {
            return Some(q);
        }
        i = i + 1;
    }
    proof {
        assert(queues@.subrange(i as int, queues@.len() as int) =~= Seq::<ActiveQueue>::empty());
    }
    None
}

/// Result recorded for request `key` among `done`.
fn lookup(done: &[(u64, Result<(), BlkError>)], key: u64) -> (r: Option<Result<(), BlkError>>)
    ensures
        r == spec_lookup(done@, key),
{
    let mut i: usize = 0;
    assert(done@.subrange(0, done@.len() as int) =~= done@);
    while i < done.len()
        invariant
            i <= done@.len(),
            spec_lookup(done@, key) == spec_lookup(done@.subrange(i as int, done@.len() as int), key),
        decreases done.len() - i,
    {
        proof {
            let rest = done@.subrange(i as int, done@.len() as int);
            assert(rest[0] == done@[i as int]);
            assert(rest.drop_first() =~= done@.subrange(i + 1, done@.len() as int));
        }
        if done[i].0 == key {
            return Some(done[i].1);
        }
        i = i + 1;
    }
    proof {
        assert(done@.subrange(i as int, done@.len() as int) =~= Seq::<(u64, Result<(), BlkError>)>::empty());
    }
    None
}

proof fn lemma_window_sum_prefix_le(queues: Seq<ActiveQueue>, n: int)
    requires
        0 <= n <= queues.len(),
    ensures
        window_sum(queues.subrange(0, n)) <= window_sum(queues),
    decreases queues.len() - n,
{
    if n < queues.len() {
        lemma_window_sum_prefix_le(queues, n + 1);
        assert(queues.subrange(0, n + 1).drop_last() =~= queues.subrange(0, n));
    } else {
        assert(queues.subrange(0, n) =~= queues);
    }
}

/// Removing entry `i` by moving the last entry into its place removes
/// exactly that entry from the multiset of entries.
proof fn lemma_swap_remove_multiset(a: Seq<WindowEntry>, i: int)
    requires
        0 <= i < a.len(),
    ensures
        a.update(i, a.last()).drop_last().to_multiset() == a.to_multiset().remove(a[i]),
{
    let u = a.update(i, a.last());
    assert(u.drop_last() =~= u.remove(u.len() - 1));
    vstd::seq_lib::to_multiset_remove(u, u.len() - 1);
    vstd::seq_lib::to_multiset_update(a, i, a.last());
    assert(u[u.len() - 1] == a.last());
    assert(u.drop_last().to_multiset() =~= a.to_multiset().remove(a[i]));
}

/// The first error over entries followed by one more entry.
proof fn lemma_first_error_push(done: Seq<(u64, Result<(), BlkError>)>, c: Seq<WindowEntry>, e: WindowEntry)
    ensures
        spec_first_error(done, c.push(e)) == (match spec_first_error(done, c) {
            Some(x) => Some(x),
            None => match spec_lookup(done, e.key) {
                Some(Err(x)) => Some(x),
                _ => None,
            },
        }),
    decreases c.len(),
{
    if c.len() == 0 {
        assert(c.push(e)[0] == e);
        assert(c.push(e).drop_first() =~= Seq::<WindowEntry>::empty());
        assert(spec_first_error(done, c.push(e).drop_first()) is None);
    } else {
        assert(c.push(e)[0] == c[0]);
        assert(c.push(e).drop_first() =~= c.drop_first().push(e));
        lemma_first_error_push(done, c.drop_first(), e);
    }
}


/// What follows a harvest (see `SubmitIo::after_harvest`).
pub open spec fn spec_after_harvest(s: SubmitIo, progressed: bool, poisoned: bool) -> AfterHarvest {
    if s.first_error is Some && poisoned {
        AfterHarvest::Finish
    } else if s.active@.len() == 0 {
        if s.first_error is Some || (s.deferred is None && s.next_byte_offset >= s.buf_len) {
            AfterHarvest::Finish
        } else {
            AfterHarvest::Continue
        }
    } else if !progressed {
        AfterHarvest::WaitAnyActive
    } else {
        AfterHarvest::Continue
    }
}

/// A transfer that ends without error ends with nothing in flight, no
/// chunk waiting to be resubmitted and every byte of the buffer
/// submitted.
pub proof fn lemma_successful_finish_covers_buffer(s: SubmitIo, progressed: bool, poisoned: bool)
    requires
        spec_after_harvest(s, progressed, poisoned) == AfterHarvest::Finish,
        s.first_error is None,
    ensures
        s.active@.len() == 0,
        s.deferred is None,
        s.next_byte_offset >= s.buf_len,
{
}

/// A refused chunk goes back only to its own queue, and only when that
/// queue has room.
pub proof fn lemma_deferred_chunk_returns_to_its_queue(queues: Seq<ActiveQueue>, active: Seq<WindowEntry>, index: usize)
    ensures
        spec_find_queue(queues, active, index) matches Some(q) ==> q.index == index && spec_queue_has_window(q, active)
            && queues.contains(q),
    decreases queues.len(),
{
    if queues.len() > 0 && !(queues[0].index == index && spec_queue_has_window(queues[0], active)) {
        lemma_deferred_chunk_returns_to_its_queue(queues.drop_first(), active, index);
        if spec_find_queue(queues.drop_first(), active, index) is Some {
            let q = spec_find_queue(queues.drop_first(), active, index)->0;
            let j = choose|j: int| 0 <= j < queues.drop_first().len() && queues.drop_first()[j] == q;
            assert(queues[j + 1] == q);
        }
    } else if queues.len() > 0 {
        assert(queues[0] == queues[0]);
    }
}

} // verus!
