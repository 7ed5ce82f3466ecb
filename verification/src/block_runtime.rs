//! Scheduling decisions of the file-system block runtime: completion mode,
//! drain selection, submit windows over request queues, request
//! validation, waiter bookkeeping and I/O statistics.
use vstd::prelude::*;

use crate::errno::AxError;
use crate::sdmmc_rdif::BlkError;

verus! {

pub const DEFAULT_MAX_TRANSFER_BYTES: usize = 1024 * 1024;
pub const IRQ_DRIVEN_MAX_TRANSFER_BYTES: usize = 4 * 1024 * 1024;
pub const DEFAULT_SUBMIT_WINDOW: usize = 32;
pub const SECTOR_BYTES: u64 = 512;
/// Devices whose drain requests are tracked individually; the others
/// request a full scan.
pub const DRAIN_DEVICE_BITS: usize = 64;

/// How request completion is observed.
#[derive(Clone, Copy, Debug, PartialEq, Eq, Structural)]
pub enum BlockCompletionMode {
    Polling,
    IrqDriven,
}

impl BlockCompletionMode {
    /// Encoding of the mode in an atomic word.
    pub fn as_usize(self) -> (v: usize)
        ensures
            v == (if self == BlockCompletionMode::Polling { 0usize } else { 1usize }),
    {
        match self {
            BlockCompletionMode::Polling => 0,
            BlockCompletionMode::IrqDriven => 1,
        }
    }

    /// Decoding of an atomic word; anything but 1 reads as polling.
    pub fn from_usize(value: usize) -> (m: BlockCompletionMode)
        ensures
            m == (if value == 1 { BlockCompletionMode::IrqDriven } else { BlockCompletionMode::Polling }),
    {
        match value {
            1 => BlockCompletionMode::IrqDriven,
            _ => BlockCompletionMode::Polling,
        }
    }
}

/// Decoding the encoding of a mode gives the mode back.
pub proof fn lemma_completion_mode_roundtrip(m: BlockCompletionMode)
    ensures
        ({
            let v = if m == BlockCompletionMode::Polling { 0usize } else { 1usize };
            (if v == 1 { BlockCompletionMode::IrqDriven } else { BlockCompletionMode::Polling }) == m
        }),
{
}

/// Wakes the drain worker of a block device.
pub trait BlockDrainWake {
    fn wake_drain(&self);

    fn wake_drain_from_irq(&self) {
        self.wake_drain();
    }
}

/// A drain waker that does nothing.
pub struct NoopDrainWake;

impl BlockDrainWake for NoopDrainWake {
    fn wake_drain(&self) {
    }
}

/// Runtime parameters of a block device.
pub struct BlockRuntimeConfig<W> {
    pub drain_wake: W,
    pub completion_mode: BlockCompletionMode,
    pub max_transfer_bytes: usize,
    pub max_segments: usize,
    pub submit_window: usize,
}

impl<W> BlockRuntimeConfig<W> {
    /// Polling completion, 1 MiB transfers, unlimited segments and a submit
    /// window of 32 requests.
    pub fn new(drain_wake: W) -> (c: BlockRuntimeConfig<W>)
        ensures
            c.drain_wake == drain_wake,
            c.completion_mode == BlockCompletionMode::Polling,
            c.max_transfer_bytes == DEFAULT_MAX_TRANSFER_BYTES,
            c.max_segments == usize::MAX,
            c.submit_window == DEFAULT_SUBMIT_WINDOW,
    {
        BlockRuntimeConfig {
            drain_wake,
            completion_mode: BlockCompletionMode::Polling,
            max_transfer_bytes: DEFAULT_MAX_TRANSFER_BYTES,
            max_segments: usize::MAX,
            submit_window: DEFAULT_SUBMIT_WINDOW,
        }
    }
}

/// Runtime configuration of a driver-interface block device: devices that
/// have an IRQ line wired and whose interface exposes IRQ sources move up
/// to 4 MiB per transfer, the others keep the default.
pub fn rdif_block_runtime_config<W>(drain_wake: W, device_irq_sources: usize, interface_irq_sources: usize) -> (c: BlockRuntimeConfig<W>)
    ensures
        c.drain_wake == drain_wake,
        c.completion_mode == BlockCompletionMode::Polling,
        c.max_transfer_bytes == (if device_irq_sources > 0 && interface_irq_sources > 0 {
            IRQ_DRIVEN_MAX_TRANSFER_BYTES
        } else {
            DEFAULT_MAX_TRANSFER_BYTES
        }),
        c.max_segments == usize::MAX,
        c.submit_window == DEFAULT_SUBMIT_WINDOW,
{
    let mut config = BlockRuntimeConfig::new(drain_wake);
    if device_irq_sources > 0 && interface_irq_sources > 0 {
        config.max_transfer_bytes = if config.max_transfer_bytes >= IRQ_DRIVEN_MAX_TRANSFER_BYTES {
            config.max_transfer_bytes
        } else {
            IRQ_DRIVEN_MAX_TRANSFER_BYTES
        };
    }
    config
}

/// Interface error reported for a block-driver error.
pub fn map_blk_err_to_ax_err(err: BlkError) -> (e: AxError)
    ensures
        e == (match err {
            BlkError::NotSupported => AxError::Unsupported,
            BlkError::Retry => AxError::WouldBlock,
            BlkError::NoMemory => AxError::NoMemory,
            BlkError::InvalidBlockIndex(_) | BlkError::InvalidRequest => AxError::InvalidInput,
            BlkError::Io | BlkError::Other(_) => AxError::Io,
        }),
{
    match err {
        BlkError::NotSupported => AxError::Unsupported,
        BlkError::Retry => AxError::WouldBlock,
        BlkError::NoMemory => AxError::NoMemory,
        BlkError::InvalidBlockIndex(_) | BlkError::InvalidRequest => AxError::InvalidInput,
        BlkError::Io | BlkError::Other(_) => AxError::Io,
    }
}

// ---------------------------------------------------------------------
// Drain selection
// ---------------------------------------------------------------------

/// Devices whose completions the drain worker must poll next.
#[derive(Clone, Copy, Debug, PartialEq, Eq, Structural)]
pub struct DrainSelection {
    pub full_scan: bool,
    pub device_bits: u64,
}

/// Which notification follows a drain request.
#[derive(Clone, Copy, Debug, PartialEq, Eq, Structural)]
pub enum DrainNotify {
    FromTask,
    FromIrq,
}

pub open spec fn spec_device_bit(device_index: usize) -> u64 {
    (1u64 << (device_index as u64)) as u64
}

/// Drain requests accumulated since the worker last took them.
pub struct DrainState {
    pub pending: DrainSelection,
}

impl DrainState {
    pub fn new() -> (s: DrainState)
        ensures
            s.pending == (DrainSelection { full_scan: false, device_bits: 0 }),
    {
        DrainState { pending: DrainSelection { full_scan: false, device_bits: 0 } }
    }
}

/// Records that device `device_index` has completions to drain.
pub fn set_block_drain_pending(state: &mut DrainState, device_index: usize)
    ensures
        device_index < DRAIN_DEVICE_BITS ==> final(state).pending == (DrainSelection {
            device_bits: old(state).pending.device_bits | spec_device_bit(device_index),
            ..old(state).pending
        }),
        device_index >= DRAIN_DEVICE_BITS ==> final(state).pending == (DrainSelection {
            full_scan: true,
            ..old(state).pending
        }),
{
    if device_index < DRAIN_DEVICE_BITS {
        state.pending.device_bits = state.pending.device_bits | (1u64 << (device_index as u64));
    } else {
        state.pending.full_scan = true;
    }
}

/// Drain request from task context.
pub fn mark_block_drain_device(state: &mut DrainState, device_index: usize) -> (n: DrainNotify)
    ensures
        n == DrainNotify::FromTask,
        device_index < DRAIN_DEVICE_BITS ==> final(state).pending == (DrainSelection {
            device_bits: old(state).pending.device_bits | spec_device_bit(device_index),
            ..old(state).pending
        }),
        device_index >= DRAIN_DEVICE_BITS ==> final(state).pending == (DrainSelection {
            full_scan: true,
            ..old(state).pending
        }),
{
    set_block_drain_pending(state, device_index);
    DrainNotify::FromTask
}

/// Drain request from interrupt context.
pub fn mark_block_drain_device_from_irq(state: &mut DrainState, device_index: usize) -> (n: DrainNotify)
    ensures
        n == DrainNotify::FromIrq,
        device_index < DRAIN_DEVICE_BITS ==> final(state).pending == (DrainSelection {
            device_bits: old(state).pending.device_bits | spec_device_bit(device_index),
            ..old(state).pending
        }),
        device_index >= DRAIN_DEVICE_BITS ==> final(state).pending == (DrainSelection {
            full_scan: true,
            ..old(state).pending
        }),
{
    set_block_drain_pending(state, device_index);
    DrainNotify::FromIrq
}

/// Whether any drain request is waiting.
pub fn block_drain_has_pending(state: &DrainState) -> (r: bool)
    ensures
        r == (state.pending.full_scan || state.pending.device_bits != 0),
{
    state.pending.full_scan || state.pending.device_bits != 0
}

/// Takes every waiting drain request.
pub fn take_block_drain_selection(state: &mut DrainState) -> (s: DrainSelection)
    ensures
        s == old(state).pending,
        final(state).pending == (DrainSelection { full_scan: false, device_bits: 0 }),
{
    let s = state.pending;
    state.pending = DrainSelection { full_scan: false, device_bits: 0 };
    s
}

pub open spec fn spec_selection_contains(selection: DrainSelection, device_index: usize) -> bool {
    selection.full_scan || (device_index < DRAIN_DEVICE_BITS && selection.device_bits & spec_device_bit(device_index) != 0)
}

/// Whether `selection` asks device `device_index` to be drained.
pub fn drain_selection_contains(selection: DrainSelection, device_index: usize) -> (r: bool)
    ensures
        r == spec_selection_contains(selection, device_index),
{
    selection.full_scan || (device_index < DRAIN_DEVICE_BITS && selection.device_bits & (1u64 << (device_index as u64)) != 0)
}

/// A drain request is never lost: once device `i` asked to be drained, the
/// next selection the worker takes contains it, whatever else was pending.
pub proof fn lemma_drain_request_is_selected(pending: DrainSelection, device_index: usize)
    ensures
        ({
            let after = if device_index < DRAIN_DEVICE_BITS {
                DrainSelection { device_bits: pending.device_bits | spec_device_bit(device_index), ..pending }
            } else {
                DrainSelection { full_scan: true, ..pending }
            };
            spec_selection_contains(after, device_index) && (after.full_scan || after.device_bits != 0)
        }),
{
    if device_index < DRAIN_DEVICE_BITS {
        let b = pending.device_bits;
        let i = device_index as u64;
        assert(i < 64);
        assert((b | (1u64 << i)) & (1u64 << i) != 0 && (b | (1u64 << i)) != 0) by (bit_vector)
            requires
                i < 64,
        ;
    }
}

/// An empty selection drains nothing.
pub proof fn lemma_empty_selection_selects_nothing(device_index: usize)
    ensures
        !spec_selection_contains(DrainSelection { full_scan: false, device_bits: 0 }, device_index),
{
    let i = device_index as u64;
    assert(0u64 & (1u64 << i) == 0) by (bit_vector);
}

// ---------------------------------------------------------------------
// Submit windows
// ---------------------------------------------------------------------

/// A request queue and how many requests may be in flight on it.
#[derive(Clone, Copy, Debug, PartialEq, Eq, Structural)]
pub struct ActiveQueue {
    pub index: usize,
    pub queue_id: usize,
    pub window: usize,
}

/// A chunk of the current transfer that is in flight.
#[derive(Clone, Copy, Debug, PartialEq, Eq, Structural)]
pub struct WindowEntry {
    pub key: u64,
    pub queue_id: usize,
    pub byte_offset: usize,
    pub byte_len: usize,
}

pub open spec fn spec_inflight(queue_id: usize, active: Seq<WindowEntry>) -> nat {
    active.filter(|e: WindowEntry| e.queue_id == queue_id).len()
}

pub open spec fn spec_queue_has_window(queue: ActiveQueue, active: Seq<WindowEntry>) -> bool {
    spec_inflight(queue.queue_id, active) < queue.window
}

/// Window of a queue: the submit window, but never more than the queue
/// accepts in flight (and at least one request).
pub fn queue_window(submit_window: usize, max_inflight: usize) -> (w: usize)
    ensures
        w == (if submit_window <= (if max_inflight >= 1 { max_inflight } else { 1 }) {
            submit_window
        } else if max_inflight >= 1 {
            max_inflight
        } else {
            1
        }),
{
    let limit = if max_inflight >= 1 {
        max_inflight
    } else {
        1
    };
    if submit_window <= limit {
        submit_window
    } else {
        limit
    }
}

/// Whether `queue` has room for one more in-flight chunk.
pub fn queue_has_window(queue: ActiveQueue, active: &[WindowEntry]) -> (r: bool)
    ensures
        r == spec_queue_has_window(queue, active@),
{
    let mut inflight: usize = 0;
    let mut i: usize = 0;
    while i < active.len()
        invariant
            i <= active.len(),
            inflight == spec_inflight(queue.queue_id, active@.subrange(0, i as int)),
            inflight <= i,
        decreases active.len() - i,
    {
        let ghost pred = |e: WindowEntry| e.queue_id == queue.queue_id;
        proof {
            assert(active@.subrange(0, i + 1) =~= active@.subrange(0, i as int).push(active@[i as int]));
            active@.subrange(0, i as int).lemma_filter_push(active@[i as int], pred);
            active@.subrange(0, i as int).lemma_filter_len(pred);
        }
        if active[i].queue_id == queue.queue_id {
            inflight = inflight + 1;
        }
        i = i + 1;
    }
    assert(active@.subrange(0, active.len() as int) =~= active@);
    inflight < queue.window
}

pub open spec fn spec_next_cursor(cursor: usize) -> usize {
    if cursor == usize::MAX { 0 } else { (cursor + 1) as usize }
}

/// Round-robin search over `tries` queues starting at `cursor`: the first
/// queue with room, and the cursor after it.
pub open spec fn spec_select_from(queues: Seq<ActiveQueue>, active: Seq<WindowEntry>, cursor: usize, tries: nat) -> (Option<ActiveQueue>, usize)
    decreases tries,
{
    if tries == 0 || queues.len() == 0 {
        (None, cursor)
    } else {
        let q = queues[cursor as int % queues.len() as int];
        if spec_queue_has_window(q, active) {
            (Some(q), spec_next_cursor(cursor))
        } else {
            spec_select_from(queues, active, spec_next_cursor(cursor), (tries - 1) as nat)
        }
    }
}

/// Next queue to submit to, round robin from `cursor`, trying each queue
/// once.
pub fn select_active_queue(queues: &[ActiveQueue], active: &[WindowEntry], cursor: &mut usize) -> (r: Option<ActiveQueue>)
    ensures
        (r, *final(cursor)) == spec_select_from(queues@, active@, *old(cursor), queues@.len()),
{
    if queues.len() == 0 {
        return None;
    }
    let ghost c0 = *cursor;
    let mut t: usize = 0;
    while t < queues.len()
        invariant
            t <= queues.len(),
            queues.len() > 0,
            c0 == *old(cursor),
            spec_select_from(queues@, active@, c0, queues@.len()) == spec_select_from(
                queues@,
                active@,
                *cursor,
                (queues@.len() - t) as nat,
            ),
        decreases queues.len() - t,
    {
        let c = *cursor;
        let idx = c % queues.len();
        *cursor = c.wrapping_add(1);
        assert(*cursor == spec_next_cursor(c));
        let queue = queues[idx];
        assert(queue == queues@[c as int % queues@.len() as int]);
        if queue_has_window(queue, active) {
            assert(spec_select_from(queues@, active@, c, (queues@.len() - t) as nat) == (Some(queue), spec_next_cursor(c)));
            return Some(queue);
        }
        t = t + 1;
    }
    None
}

/// A queue chosen by the round robin always has room, and is one of the
/// queues offered.
pub proof fn lemma_selected_queue_has_window(queues: Seq<ActiveQueue>, active: Seq<WindowEntry>, cursor: usize, tries: nat)
    ensures
        spec_select_from(queues, active, cursor, tries).0 matches Some(q) ==> spec_queue_has_window(q, active)
            && queues.contains(q),
    decreases tries,
{
    if tries > 0 && queues.len() > 0 {
        let q = queues[cursor as int % queues.len() as int];
        if !spec_queue_has_window(q, active) {
            lemma_selected_queue_has_window(queues, active, spec_next_cursor(cursor), (tries - 1) as nat);
        }
    }
}

/// When the round robin finds nothing and the cursor does not wrap during
/// the search, every queue it visited is full: the queue at
/// `(cursor + k) % len` for each `k < tries`.
pub proof fn lemma_no_queue_selected_means_all_full(queues: Seq<ActiveQueue>, active: Seq<WindowEntry>, cursor: usize, tries: nat, k: nat)
    requires
        queues.len() > 0,
        cursor + tries <= usize::MAX,
        k < tries,
        spec_select_from(queues, active, cursor, tries).0 is None,
    ensures
        !spec_queue_has_window(queues[(cursor + k) % queues.len() as int], active),
    decreases tries,
{
    if k > 0 {
        lemma_no_queue_selected_means_all_full(queues, active, (cursor + 1) as usize, (tries - 1) as nat, (k - 1) as nat);
    }
}

// ---------------------------------------------------------------------
// Request validation
// ---------------------------------------------------------------------

/// Geometry of a block device as the runtime sees it.
#[derive(Clone, Copy, Debug, PartialEq, Eq, Structural)]
pub struct BlockGeometry {
    pub num_blocks: u64,
    pub logical_block_size: usize,
    pub read_only: bool,
}

/// Whether a transfer of `len` bytes at block `block_id` is valid: a whole
/// number of blocks that ends inside the device.
pub fn validate_io(info: BlockGeometry, block_id: u64, len: usize) -> (r: Result<(), AxError>)
    ensures
        r is Ok <==> (info.logical_block_size != 0 && len % info.logical_block_size == 0
            && block_id + len / info.logical_block_size <= info.num_blocks),
        r is Err ==> r == Err::<(), AxError>(AxError::InvalidInput),
{
    let block_size = info.logical_block_size;
    if block_size == 0 || len % block_size != 0 {
        return Err(AxError::InvalidInput);
    }
    let block_count = len / block_size;
    match block_id.checked_add(block_count as u64) {
        None => Err(AxError::InvalidInput),
        Some(end) => {
            if end > info.num_blocks {
                Err(AxError::InvalidInput)
            } else {
                Ok(())
            }
        },
    }
}

/// Whether two queues belong to the same device: same capacity, block size
/// and writability.
pub fn same_device_identity(left: BlockGeometry, right: BlockGeometry) -> (r: bool)
    ensures
        r == (left == right),
{
    left.num_blocks == right.num_blocks && left.logical_block_size == right.logical_block_size
        && left.read_only == right.read_only
}

/// What a driver queue reports about itself when a block device is built.
#[derive(Clone, Copy, Debug, PartialEq, Eq, Structural)]
pub struct QueueDescriptor {
    pub driver_queue_id: usize,
    pub device: BlockGeometry,
    pub max_inflight: usize,
}

/// Number of driver queue ids a device can map.
pub const DRIVER_QUEUE_SLOTS: usize = 64;

/// Whether the queues of a device being built are acceptable: at least
/// one; every driver queue id below 64 and used once; every queue of the
/// same device as the first; every queue accepting a request in flight.
pub open spec fn spec_runtime_queues_valid(q: Seq<QueueDescriptor>) -> bool {
    &&& q.len() > 0
    &&& forall|i: int|
        0 <= i < q.len() ==> {
            &&& (#[trigger] q[i]).driver_queue_id < DRIVER_QUEUE_SLOTS
            &&& q[i].device == q[0].device
            &&& q[i].max_inflight != 0
        }
    &&& forall|i: int, j: int| 0 <= j < i < q.len() ==> q[j].driver_queue_id != q[i].driver_queue_id
}

/// Checks the queues of a device being built and maps each driver queue id
/// to the runtime id (the position) of its queue. Any violation of
/// `spec_runtime_queues_valid` is an invalid request.
pub fn validate_runtime_queues(queues: &[QueueDescriptor]) -> (r: Result<Vec<Option<usize>>, BlkError>)
    ensures
        r is Ok <==> spec_runtime_queues_valid(queues@),
        r is Err ==> r == Err::<Vec<Option<usize>>, BlkError>(BlkError::InvalidRequest),
        r matches Ok(map) ==> {
            &&& map@.len() == DRIVER_QUEUE_SLOTS
            &&& forall|i: int| 0 <= i < queues@.len() ==> map@[(#[trigger] queues@[i]).driver_queue_id as int] == Some(i as usize)
            &&& forall|k: int|
                0 <= k < DRIVER_QUEUE_SLOTS ==> ((#[trigger] map@[k]) is Some <==> exists|i: int|
                    0 <= i < queues@.len() && queues@[i].driver_queue_id == k)
        },
{
    let q = queues;
    let mut map: Vec<Option<usize>> = Vec::new();
    let mut k: usize = 0;
    while k < DRIVER_QUEUE_SLOTS
        invariant
            k <= DRIVER_QUEUE_SLOTS,
            map@.len() == k,
            forall|j: int| 0 <= j < k ==> map@[j] is None,
        decreases DRIVER_QUEUE_SLOTS - k,
    {
        map.push(None);
        k = k + 1;
    }
    if q.len() == 0 {
        return Err(BlkError::InvalidRequest);
    }
    let first = q[0].device;
    let mut i: usize = 0;
    while i < q.len()
        invariant
            i <= q@.len(),
            q@ == queues@,
            q@.len() > 0,
            first == q@[0].device,
            map@.len() == DRIVER_QUEUE_SLOTS,
            forall|a: int|
                0 <= a < i ==> {
                    &&& (#[trigger] q@[a]).driver_queue_id < DRIVER_QUEUE_SLOTS
                    &&& q@[a].device == q@[0].device
                    &&& q@[a].max_inflight != 0
                    &&& map@[q@[a].driver_queue_id as int] == Some(a as usize)
                },
            forall|a: int, b: int| 0 <= b < a < i ==> q@[b].driver_queue_id != q@[a].driver_queue_id,
            forall|x: int|
                0 <= x < DRIVER_QUEUE_SLOTS ==> ((#[trigger] map@[x]) is Some ==> {
                    &&& map@[x]->0 < i
                    &&& q@[map@[x]->0 as int].driver_queue_id == x
                }),
        decreases q@.len() - i,
    {
        let d = q[i];
        if d.driver_queue_id >= DRIVER_QUEUE_SLOTS {
            proof {
                assert(q@[i as int].driver_queue_id >= DRIVER_QUEUE_SLOTS);
                if spec_runtime_queues_valid(q@) {
                    assert(q@[i as int].driver_queue_id < DRIVER_QUEUE_SLOTS);
                }
            }
            return Err(BlkError::InvalidRequest);
        }
        if map[d.driver_queue_id].is_some() {
            proof {
                let b = map@[d.driver_queue_id as int]->0 as int;
                assert(q@[b].driver_queue_id == q@[i as int].driver_queue_id);
                assert(!spec_runtime_queues_valid(q@));
            }
            return Err(BlkError::InvalidRequest);
        }
        if !same_device_identity(first, d.device) {
            proof {
                assert(q@[i as int].device != q@[0].device);
                if spec_runtime_queues_valid(q@) {
                    assert(q@[i as int].device == q@[0].device);
                }
            }
            return Err(BlkError::InvalidRequest);
        }
        if d.max_inflight == 0 {
            proof {
                assert(q@[i as int].max_inflight == 0);
                if spec_runtime_queues_valid(q@) {
                    assert(q@[i as int].max_inflight != 0);
                }
            }
            return Err(BlkError::InvalidRequest);
        }
        proof {
            assert forall|b: int| 0 <= b < i implies q@[b].driver_queue_id != q@[i as int].driver_queue_id by {
                assert(map@[q@[b].driver_queue_id as int] == Some(b as usize));
            }
        }
        map.set(d.driver_queue_id, Some(i));
        i = i + 1;
    }
    proof {
        assert forall|x: int| 0 <= x < DRIVER_QUEUE_SLOTS implies ((#[trigger] map@[x]) is Some <==> exists|a: int|
            0 <= a < q@.len() && q@[a].driver_queue_id == x) by {
            if map@[x] is Some {
                let a = map@[x]->0 as int;
                assert(q@[a].driver_queue_id == x);
            }
            if exists|a: int| 0 <= a < q@.len() && q@[a].driver_queue_id == x {
                let a = choose|a: int| 0 <= a < q@.len() && q@[a].driver_queue_id == x;
                assert(map@[q@[a].driver_queue_id as int] == Some(a as usize));
            }
        }
    }
    Ok(map)
}

/// Queue identifiers whose bit is set in `bits`, in increasing order.
pub fn queue_ids_from_bits(bits: u64) -> (ids: Vec<usize>)
    ensures
        forall|i: int| 0 <= i < ids.len() ==> #[trigger] ids@[i] < 64 && bits & spec_device_bit(ids@[i]) != 0,
        forall|i: int, j: int| 0 <= i < j < ids.len() ==> ids@[i] < ids@[j],
        forall|q: usize| q < 64 && bits & spec_device_bit(q) != 0 ==> ids@.contains(q),
{
    let mut ids: Vec<usize> = Vec::new();
    let mut q: usize = 0;
    while q < 64
        invariant
            q <= 64,
            forall|i: int| 0 <= i < ids.len() ==> #[trigger] ids@[i] < q && bits & spec_device_bit(ids@[i]) != 0,
            forall|i: int, j: int| 0 <= i < j < ids.len() ==> ids@[i] < ids@[j],
            forall|k: usize| k < q && bits & spec_device_bit(k) != 0 ==> ids@.contains(k),
        decreases 64 - q,
    {
        let ghost before = ids@;
        if bits & (1u64 << (q as u64)) != 0 {
            ids.push(q);
        }
        proof {
            assert forall|k: usize| k < q + 1 && bits & spec_device_bit(k) != 0 implies ids@.contains(k) by {
                if k == q {
                    assert(ids@[ids.len() - 1] == q);
                } else {
                    assert(before.contains(k));
                    let j = choose|j: int| 0 <= j < before.len() && before[j] == k;
                    assert(ids@[j] == k);
                }
            }
        }
        q = q + 1;
    }
    ids
}

// ---------------------------------------------------------------------
// Waiters
// ---------------------------------------------------------------------

/// A task waiting for a request queue to make progress.
#[derive(Clone, Copy, Debug, PartialEq, Eq, Structural)]
pub struct QueueProgressWaiter {
    pub queue_id: usize,
    pub task_id: u64,
}

/// A task waiting for the flush barrier to open or close.
#[derive(Clone, Copy, Debug, PartialEq, Eq, Structural)]
pub struct BarrierWaiter {
    pub task_id: u64,
}

/// Removes every barrier waiter registered by `task_id`.
pub fn remove_barrier_waiter(waiters: &mut Vec<BarrierWaiter>, task_id: u64)
    ensures
        final(waiters)@ == old(waiters)@.filter(|w: BarrierWaiter| w.task_id != task_id),
{
    let ghost src = waiters@;
    let mut kept: Vec<BarrierWaiter> = Vec::new();
    let mut i: usize = 0;
    while i < waiters.len()
        invariant
            i <= waiters.len(),
            waiters@ == src,
            kept@ == src.subrange(0, i as int).filter(|w: BarrierWaiter| w.task_id != task_id),
        decreases waiters.len() - i,
    {
        proof {
            assert(src.subrange(0, i + 1) =~= src.subrange(0, i as int).push(src[i as int]));
            src.subrange(0, i as int).lemma_filter_push(src[i as int], |w: BarrierWaiter| w.task_id != task_id);
        }
        if waiters[i].task_id != task_id {
            kept.push(waiters[i]);
        }
        i = i + 1;
    }
    assert(src.subrange(0, src.len() as int) =~= src);
    *waiters = kept;
}

/// Removes the waiter `task_id` registered for `queue_id`.
pub fn remove_queue_progress_waiter(waiters: &mut Vec<QueueProgressWaiter>, queue_id: usize, task_id: u64)
    ensures
        final(waiters)@ == old(waiters)@.filter(|w: QueueProgressWaiter| !(w.queue_id == queue_id && w.task_id == task_id)),
{
    let ghost src = waiters@;
    let mut kept: Vec<QueueProgressWaiter> = Vec::new();
    let mut i: usize = 0;
    while i < waiters.len()
        invariant
            i <= waiters.len(),
            waiters@ == src,
            kept@ == src.subrange(0, i as int).filter(|w: QueueProgressWaiter| !(w.queue_id == queue_id && w.task_id == task_id)),
        decreases waiters.len() - i,
    {
        proof {
            assert(src.subrange(0, i + 1) =~= src.subrange(0, i as int).push(src[i as int]));
            src.subrange(0, i as int).lemma_filter_push(src[i as int], |w: QueueProgressWaiter| !(w.queue_id == queue_id && w.task_id == task_id));
        }
        if !(waiters[i].queue_id == queue_id && waiters[i].task_id == task_id) {
            kept.push(waiters[i]);
        }
        i = i + 1;
    }
    assert(src.subrange(0, src.len() as int) =~= src);
    *waiters = kept;
}

/// Takes the waiters registered for `queue_id`, returning the tasks to
/// wake; the waiters of other queues stay registered.
pub fn wake_queue_progress(waiters: &mut Vec<QueueProgressWaiter>, queue_id: usize) -> (woken: Vec<u64>)
    ensures
        final(waiters)@ == old(waiters)@.filter(|w: QueueProgressWaiter| w.queue_id != queue_id),
        woken@ == old(waiters)@.filter(|w: QueueProgressWaiter| w.queue_id == queue_id).map_values(|w: QueueProgressWaiter| w.task_id),
{
    let ghost src = waiters@;
    let mut kept: Vec<QueueProgressWaiter> = Vec::new();
    let mut woken: Vec<u64> = Vec::new();
    let mut i: usize = 0;
    while i < waiters.len()
        invariant
            i <= waiters.len(),
            waiters@ == src,
            kept@ == src.subrange(0, i as int).filter(|w: QueueProgressWaiter| w.queue_id != queue_id),
            woken@ == src.subrange(0, i as int).filter(|w: QueueProgressWaiter| w.queue_id == queue_id).map_values(|w: QueueProgressWaiter| w.task_id),
        decreases waiters.len() - i,
    {
        proof {
            assert(src.subrange(0, i + 1) =~= src.subrange(0, i as int).push(src[i as int]));
            src.subrange(0, i as int).lemma_filter_push(src[i as int], |w: QueueProgressWaiter| w.queue_id != queue_id);
            src.subrange(0, i as int).lemma_filter_push(src[i as int], |w: QueueProgressWaiter| w.queue_id == queue_id);
        }
        let w = waiters[i];
        if w.queue_id == queue_id {
            woken.push(w.task_id);
            proof {
                let f = src.subrange(0, i as int).filter(|w: QueueProgressWaiter| w.queue_id == queue_id);
                assert(f.push(w).map_values(|w: QueueProgressWaiter| w.task_id) =~= f.map_values(|w: QueueProgressWaiter| w.task_id).push(w.task_id));
            }
        } else {
            kept.push(w);
        }
        i = i + 1;
    }
    assert(src.subrange(0, src.len() as int) =~= src);
    *waiters = kept;
    woken
}

// ---------------------------------------------------------------------
// Data I/O against the flush barrier
// ---------------------------------------------------------------------

/// Outcome of trying to take the flush barrier.
#[derive(Clone, Copy, Debug, PartialEq, Eq, Structural)]
pub enum FlushStep {
    /// Another flush holds the barrier: wait for its release.
    Busy,
    /// The barrier is taken but data I/O is still in flight: wait for it.
    DrainData,
    /// The barrier is taken and no data I/O is in flight.
    Ready,
}

/// Data operations in flight and whether a flush holds the barrier.
pub struct DataIoGate {
    pub active_data_ops: usize,
    pub flush_active: bool,
}

impl DataIoGate {
    pub fn new() -> (g: DataIoGate)
        ensures
            g.active_data_ops == 0,
            !g.flush_active,
    {
        DataIoGate { active_data_ops: 0, flush_active: false }
    }

    /// Admits one data operation unless a flush holds the barrier.
    pub fn begin_data_io(&mut self) -> (admitted: bool)
        requires
            old(self).active_data_ops < usize::MAX,
        ensures
            admitted == !old(self).flush_active,
            final(self).flush_active == old(self).flush_active,
            admitted ==> final(self).active_data_ops == old(self).active_data_ops + 1,
            !admitted ==> final(self).active_data_ops == old(self).active_data_ops,
    {
        if self.flush_active {
            return false;
        }
        self.active_data_ops = self.active_data_ops + 1;
        true
    }

    /// Ends one data operation; `true` when it was the last one in flight,
    /// so that barrier waiters must be woken.
    pub fn finish_data_io(&mut self) -> (wake_barrier: bool)
        requires
            old(self).active_data_ops > 0,
        ensures
            final(self).active_data_ops == old(self).active_data_ops - 1,
            final(self).flush_active == old(self).flush_active,
            wake_barrier == (old(self).active_data_ops == 1),
    {
        self.active_data_ops = self.active_data_ops - 1;
        self.active_data_ops == 0
    }

    /// Tries to take the flush barrier.
    pub fn acquire_flush_barrier(&mut self) -> (step: FlushStep)
        ensures
            final(self).active_data_ops == old(self).active_data_ops,
            old(self).flush_active ==> step == FlushStep::Busy && final(self).flush_active,
            !old(self).flush_active ==> final(self).flush_active,
            !old(self).flush_active && old(self).active_data_ops == 0 ==> step == FlushStep::Ready,
            !old(self).flush_active && old(self).active_data_ops != 0 ==> step == FlushStep::DrainData,
    {
        if self.flush_active {
            return FlushStep::Busy;
        }
        self.flush_active = true;
        if self.active_data_ops == 0 {
            FlushStep::Ready
        } else {
            FlushStep::DrainData
        }
    }

    /// Whether the flush that holds the barrier may proceed.
    pub fn flush_may_proceed(&self) -> (r: bool)
        ensures
            r == (self.flush_active && self.active_data_ops == 0),
    {
        self.flush_active && self.active_data_ops == 0
    }

    /// Releases the flush barrier.
    pub fn release_flush_barrier(&mut self)
        ensures
            !final(self).flush_active,
            final(self).active_data_ops == old(self).active_data_ops,
    {
        self.flush_active = false;
    }
}

// ---------------------------------------------------------------------
// Statistics and passthrough
// ---------------------------------------------------------------------

/// Kind of a block request.
#[derive(Clone, Copy, Debug, PartialEq, Eq, Structural)]
pub enum RequestOp {
    Read,
    Write,
    Flush,
    Discard,
    WriteZeroes,
}

/// Cumulative block I/O counters; each wraps around like the atomic word
/// it is kept in.
#[derive(Clone, Copy, Debug, PartialEq, Eq, Structural)]
pub struct BlockIoCounters {
    pub reads: u64,
    pub sectors_read: u64,
    pub writes: u64,
    pub sectors_written: u64,
}

/// The counters after a submitted transfer of `len` bytes: a read or a
/// write adds one request and `len / 512` sectors to its own pair of
/// counters, wrapping; any other request changes nothing.
pub open spec fn spec_record_io(c: BlockIoCounters, op: RequestOp, len: usize) -> BlockIoCounters {
    if op == RequestOp::Read {
        BlockIoCounters {
            reads: c.reads.wrapping_add(1),
            sectors_read: c.sectors_read.wrapping_add((len as u64 / SECTOR_BYTES) as u64),
            ..c
        }
    } else if op == RequestOp::Write {
        BlockIoCounters {
            writes: c.writes.wrapping_add(1),
            sectors_written: c.sectors_written.wrapping_add((len as u64 / SECTOR_BYTES) as u64),
            ..c
        }
    } else {
        c
    }
}

impl BlockIoCounters {
    pub fn new() -> (c: BlockIoCounters)
        ensures
            c == (BlockIoCounters { reads: 0, sectors_read: 0, writes: 0, sectors_written: 0 }),
    {
        BlockIoCounters { reads: 0, sectors_read: 0, writes: 0, sectors_written: 0 }
    }

    /// Counts a submitted transfer of `len` bytes; only reads and writes
    /// are counted.
    pub fn record_io(&mut self, op: RequestOp, len: usize)
        ensures
            op == RequestOp::Read ==> *final(self) == (BlockIoCounters {
                reads: old(self).reads.wrapping_add(1),
                sectors_read: old(self).sectors_read.wrapping_add((len as u64 / SECTOR_BYTES) as u64),
                ..*old(self)
            }),
            op == RequestOp::Write ==> *final(self) == (BlockIoCounters {
                writes: old(self).writes.wrapping_add(1),
                sectors_written: old(self).sectors_written.wrapping_add((len as u64 / SECTOR_BYTES) as u64),
                ..*old(self)
            }),
            !(op == RequestOp::Read || op == RequestOp::Write) ==> *final(self) == *old(self),
            *final(self) == spec_record_io(*old(self), op, len),
    {
        let sectors = len as u64 / SECTOR_BYTES;
        match op {
            RequestOp::Read => {
                self.reads = self.reads.wrapping_add(1);
                self.sectors_read = self.sectors_read.wrapping_add(sectors);
            },
            RequestOp::Write => {
                self.writes = self.writes.wrapping_add(1);
                self.sectors_written = self.sectors_written.wrapping_add(sectors);
            },
            _ => {},
        }
    }
}

/// Cumulative counters as `(reads, sectors_read, writes, sectors_written)`,
/// a sector being 512 bytes.
pub fn block_io_stats(counters: &BlockIoCounters) -> (s: (u64, u64, u64, u64))
    ensures
        s == (counters.reads, counters.sectors_read, counters.writes, counters.sectors_written),
{
    (counters.reads, counters.sectors_read, counters.writes, counters.sectors_written)
}

/// Completion modes of the installed devices and the number of IRQ
/// registrations held for them.
pub struct BlockRuntime {
    pub completion_modes: Vec<BlockCompletionMode>,
    pub irq_registrations: usize,
}

impl BlockRuntime {
    /// Switches every device to polling and gives up the IRQ registrations,
    /// returning how many were released.
    pub fn release_irq_registrations_for_passthrough(&mut self) -> (released: usize)
        ensures
            released == old(self).irq_registrations,
            final(self).irq_registrations == 0,
            final(self).completion_modes@.len() == old(self).completion_modes@.len(),
            forall|i: int| 0 <= i < final(self).completion_modes@.len() ==> #[trigger] final(self).completion_modes@[i] == BlockCompletionMode::Polling,
    {
        let mut i: usize = 0;
        let n = self.completion_modes.len();
        while i < n
            invariant
                i <= n,
                n == self.completion_modes@.len(),
                self.irq_registrations == old(self).irq_registrations,
                forall|j: int| 0 <= j < i ==> #[trigger] self.completion_modes@[j] == BlockCompletionMode::Polling,
            decreases n - i,
        {
            self.completion_modes.set(i, BlockCompletionMode::Polling);
            i = i + 1;
        }
        let released = self.irq_registrations;
        self.irq_registrations = 0;
        released
    }
}

/// Releases the block IRQs of the installed runtime for device passthrough;
/// releases nothing when no runtime is installed.
pub fn release_block_irqs_for_passthrough(runtime: &mut Option<BlockRuntime>) -> (released: usize)
    ensures
        *old(runtime) is None ==> released == 0 && *final(runtime) is None,
        *old(runtime) matches Some(r) ==> released == r.irq_registrations,
        *old(runtime) matches Some(r) ==> (*final(runtime) matches Some(n) && n.irq_registrations == 0
            && n.completion_modes@.len() == r.completion_modes@.len()
            && forall|i: int| 0 <= i < n.completion_modes@.len() ==> #[trigger] n.completion_modes@[i] == BlockCompletionMode::Polling),
{
    match runtime {
        Some(r) => r.release_irq_registrations_for_passthrough(),
        None => 0,
    }
}

} // verus!
