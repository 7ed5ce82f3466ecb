//! Block-device configuration of an SD/MMC card exposed through the block
//! driver interface: queue limits, addressing and error mapping.
use vstd::prelude::*;

use crate::sdmmc::Error;

verus! {

/// Bytes per logical block.
pub const BLOCK_SIZE: usize = 512;
/// DMA mask used when no device DMA handle constrains addressing.
pub const DEFAULT_DMA_MASK: u64 = 0xFFFF_FFFF;
/// Most blocks one DMA request may move.
pub const DEFAULT_DMA_MAX_BLOCKS_PER_REQUEST: u32 = 0x1_0000;
/// Most blocks one FIFO (programmed I/O) request may move.
pub const FIFO_MAX_BLOCKS_PER_REQUEST: u32 = 1;
/// Most blocks one ADMA2 descriptor table moves.
pub const ADMA2_MAX_BLOCKS: u32 = 128;
/// Largest segment one ADMA2 descriptor table moves.
pub const ADMA2_MAX_TRANSFER_SIZE: usize = 0x1_0000;

/// Identifier of the DMA address domain a device lives in.
#[derive(Clone, Copy, Debug, PartialEq, Eq, Structural)]
pub struct DmaDomainId(pub u32);

impl DmaDomainId {
    /// The single global domain of systems without an IOMMU.
    pub fn legacy_global() -> (d: DmaDomainId)
        ensures
            d == DmaDomainId(0),
    {
        DmaDomainId(0)
    }
}

/// What the block adapter reads of a device's DMA handle: its address
/// domain and addressing mask.
#[derive(Clone, Copy, Debug, PartialEq, Eq, Structural)]
pub struct DeviceDma {
    pub domain: DmaDomainId,
    pub dma_mask: u64,
}

/// Errors of the block driver interface.
#[derive(Clone, Copy, Debug, PartialEq, Eq)]
pub enum BlkError {
    NotSupported,
    Retry,
    NoMemory,
    InvalidBlockIndex(u64),
    InvalidRequest,
    Io,
    Other(&'static str),
}

/// How a block request moves its data.
#[derive(Clone, Copy, Debug, PartialEq, Eq, Structural)]
pub enum BlockTransferMode {
    Fifo,
    Dma,
}

/// Limits a request queue advertises to the block runtime.
#[derive(Clone, Copy, Debug, PartialEq, Eq, Structural)]
pub struct QueueLimits {
    pub dma_mask: u64,
    pub dma_domain: DmaDomainId,
    pub dma_alignment: usize,
    pub max_inflight: usize,
    pub max_blocks_per_request: u32,
    pub max_segments: usize,
    pub max_segment_size: usize,
    pub supported_flags: u32,
    pub supports_flush: bool,
    pub supports_discard: bool,
    pub supports_write_zeroes: bool,
}

/// Identity of a block device.
#[derive(Clone, Copy, Debug, PartialEq, Eq)]
pub struct DeviceInfo {
    pub name: Option<&'static str>,
    pub num_blocks: u64,
    pub logical_block_size: usize,
    pub read_only: bool,
}

/// Configuration of an SD/MMC block device.
#[derive(Clone, Copy, Debug)]
pub struct BlockConfig {
    pub name: &'static str,
    pub capacity_blocks: u64,
    pub dma_mask: u64,
    pub dma_domain: DmaDomainId,
    pub max_blocks_per_request: u32,
    pub max_segment_size: usize,
    pub irq_driven: bool,
    pub dma: Option<DeviceDma>,
}

impl BlockConfig {
    /// A device that moves data by DMA through `dma`.
    pub fn dma(name: &'static str, capacity_blocks: u64, irq_driven: bool, dma: DeviceDma) -> (c: BlockConfig)
        ensures
            c.name == name,
            c.capacity_blocks == capacity_blocks,
            c.dma_mask == dma.dma_mask,
            c.dma_domain == dma.domain,
            c.max_blocks_per_request == DEFAULT_DMA_MAX_BLOCKS_PER_REQUEST,
            c.max_segment_size == usize::MAX,
            c.irq_driven == irq_driven,
            c.dma == Some(dma),
    {
        BlockConfig {
            name,
            capacity_blocks,
            dma_mask: dma.dma_mask,
            dma_domain: dma.domain,
            max_blocks_per_request: DEFAULT_DMA_MAX_BLOCKS_PER_REQUEST,
            max_segment_size: usize::MAX,
            irq_driven,
            dma: Some(dma),
        }
    }

    /// A device that moves data through the controller FIFO, one block per
    /// request.
    pub fn fifo(name: &'static str, capacity_blocks: u64, irq_driven: bool) -> (c: BlockConfig)
        ensures
            c.name == name,
            c.capacity_blocks == capacity_blocks,
            c.dma_mask == DEFAULT_DMA_MASK,
            c.dma_domain == DmaDomainId(0),
            c.max_blocks_per_request == FIFO_MAX_BLOCKS_PER_REQUEST,
            c.max_segment_size == BLOCK_SIZE * FIFO_MAX_BLOCKS_PER_REQUEST,
            c.irq_driven == irq_driven,
            c.dma is None,
    {
        BlockConfig {
            name,
            capacity_blocks,
            dma_mask: DEFAULT_DMA_MASK,
            dma_domain: DmaDomainId::legacy_global(),
            max_blocks_per_request: FIFO_MAX_BLOCKS_PER_REQUEST,
            max_segment_size: BLOCK_SIZE * FIFO_MAX_BLOCKS_PER_REQUEST as usize,
            irq_driven,
            dma: None,
        }
    }

    pub fn with_dma_mask(self, dma_mask: u64) -> (c: BlockConfig)
        ensures
            c == (BlockConfig { dma_mask, ..self }),
    {
        BlockConfig { dma_mask, ..self }
    }

    pub fn with_max_blocks_per_request(self, max_blocks_per_request: u32) -> (c: BlockConfig)
        ensures
            c == (BlockConfig { max_blocks_per_request, ..self }),
    {
        BlockConfig { max_blocks_per_request, ..self }
    }

    pub fn with_max_segment_size(self, max_segment_size: usize) -> (c: BlockConfig)
        ensures
            c == (BlockConfig { max_segment_size, ..self }),
    {
        BlockConfig { max_segment_size, ..self }
    }

    pub fn with_irq_driven(self, irq_driven: bool) -> (c: BlockConfig)
        ensures
            c == (BlockConfig { irq_driven, ..self }),
    {
        BlockConfig { irq_driven, ..self }
    }

    /// Switches the device to DMA through `dma`, taking its mask and domain.
    pub fn with_dma(self, dma: DeviceDma) -> (c: BlockConfig)
        ensures
            c == (BlockConfig { dma_mask: dma.dma_mask, dma_domain: dma.domain, dma: Some(dma), ..self }),
    {
        BlockConfig { dma_mask: dma.dma_mask, dma_domain: dma.domain, dma: Some(dma), ..self }
    }

    pub fn uses_dma(&self) -> (r: bool)
        ensures
            r == self.dma is Some,
    {
        self.dma.is_some()
    }
}

/// Queue limits of a device: one request in flight, one segment, block
/// alignment, no flush/discard/write-zeroes.
pub fn queue_limits(config: &BlockConfig, dma_mask: u64) -> (l: QueueLimits)
    ensures
        l == (QueueLimits {
            dma_mask,
            dma_domain: config.dma_domain,
            dma_alignment: BLOCK_SIZE,
            max_inflight: 1,
            max_blocks_per_request: config.max_blocks_per_request,
            max_segments: 1,
            max_segment_size: config.max_segment_size,
            supported_flags: 0,
            supports_flush: false,
            supports_discard: false,
            supports_write_zeroes: false,
        }),
{
    QueueLimits {
        dma_mask,
        dma_domain: config.dma_domain,
        dma_alignment: BLOCK_SIZE,
        max_inflight: 1,
        max_blocks_per_request: config.max_blocks_per_request,
        max_segments: 1,
        max_segment_size: config.max_segment_size,
        supported_flags: 0,
        supports_flush: false,
        supports_discard: false,
        supports_write_zeroes: false,
    }
}

/// Identity the device reports: its name, capacity and block size.
pub fn device_info(config: &BlockConfig) -> (i: DeviceInfo)
    ensures
        i == (DeviceInfo {
            name: Some(config.name),
            num_blocks: config.capacity_blocks,
            logical_block_size: BLOCK_SIZE,
            read_only: false,
        }),
{
    DeviceInfo { name: Some(config.name), num_blocks: config.capacity_blocks, logical_block_size: BLOCK_SIZE, read_only: false }
}

/// Card address of block `block_id`: high-capacity cards are block
/// addressed, standard-capacity cards byte addressed.
pub fn block_addr_for_card(block_id: u64, high_capacity: bool) -> (r: Result<u32, BlkError>)
    ensures
        block_id > u32::MAX ==> r == Err::<u32, BlkError>(BlkError::InvalidBlockIndex(block_id)),
        block_id <= u32::MAX && high_capacity ==> r == Ok::<u32, BlkError>(block_id as u32),
        block_id <= u32::MAX && !high_capacity && block_id * 512 <= u32::MAX ==> r == Ok::<u32, BlkError>((block_id * 512) as u32),
        block_id <= u32::MAX && !high_capacity && block_id * 512 > u32::MAX ==> r == Err::<u32, BlkError>(BlkError::InvalidBlockIndex(block_id)),
{
    if block_id > u32::MAX as u64 {
        return Err(BlkError::InvalidBlockIndex(block_id));
    }
    let block_id = block_id as u32;
    if high_capacity {
        Ok(block_id)
    } else {
        match block_id.checked_mul(BLOCK_SIZE as u32) {
            Some(addr) => Ok(addr),
            None => Err(BlkError::InvalidBlockIndex(block_id as u64)),
        }
    }
}

/// Block-interface error reported for an SD/MMC error.
pub fn map_dev_err_to_blk_err(err: Error) -> (b: BlkError)
    ensures
        b == (match err {
            Error::Busy => BlkError::Retry,
            Error::NoCard | Error::UnsupportedCommand | Error::CardLocked => BlkError::NotSupported,
            Error::Misaligned | Error::InvalidArgument => BlkError::Other("SD/MMC request is not block aligned"),
            _ => BlkError::Io,
        }),
{
    match err {
        Error::Busy => BlkError::Retry,
        Error::NoCard | Error::UnsupportedCommand | Error::CardLocked => BlkError::NotSupported,
        Error::Misaligned | Error::InvalidArgument => BlkError::Other("SD/MMC request is not block aligned"),
        _ => BlkError::Io,
    }
}

/// Transfer mode a device uses: DMA exactly when it has a DMA handle.
pub fn transfer_mode_for_dma(dma: Option<&DeviceDma>) -> (m: BlockTransferMode)
    ensures
        m == (if dma is Some { BlockTransferMode::Dma } else { BlockTransferMode::Fifo }),
{
    match dma {
        Some(_) => BlockTransferMode::Dma,
        None => BlockTransferMode::Fifo,
    }
}

/// FIFO requests are never split by the adapter.
pub(crate) fn should_split_fifo_request(dma: Option<&DeviceDma>, block_count: u32) -> (r: bool)
    ensures
        !r,
{
    false
}

/// Whether a DMA request that failed with `err` may be retried by FIFO.
pub fn can_fallback_to_fifo(err: Error) -> (r: bool)
    ensures
        r == (err is UnsupportedCommand || err is InvalidArgument || err is Misaligned),
{
    matches!(err, Error::UnsupportedCommand | Error::InvalidArgument | Error::Misaligned)
}

/// FIFO configuration of an SD host without DMA.
pub fn fifo_config(name: &'static str, capacity_blocks: u64, irq_driven: bool) -> (c: BlockConfig)
    ensures
        c.name == name,
        c.capacity_blocks == capacity_blocks,
        c.dma_mask == DEFAULT_DMA_MASK,
        c.dma_domain == DmaDomainId(0),
        c.max_blocks_per_request == FIFO_MAX_BLOCKS_PER_REQUEST,
        c.max_segment_size == BLOCK_SIZE * FIFO_MAX_BLOCKS_PER_REQUEST,
        c.irq_driven == irq_driven,
        c.dma is None,
{
    BlockConfig::fifo(name, capacity_blocks, irq_driven)
}

/// ADMA2 configuration of an SD host: one descriptor table caps a request
/// at `ADMA2_MAX_BLOCKS` blocks in one `ADMA2_MAX_TRANSFER_SIZE` segment.
pub fn dma_config(name: &'static str, capacity_blocks: u64, irq_driven: bool, dma: DeviceDma) -> (c: BlockConfig)
    ensures
        c.name == name,
        c.capacity_blocks == capacity_blocks,
        c.dma_mask == dma.dma_mask,
        c.dma_domain == dma.domain,
        c.max_blocks_per_request == ADMA2_MAX_BLOCKS,
        c.max_segment_size == ADMA2_MAX_TRANSFER_SIZE,
        c.irq_driven == irq_driven,
        c.dma == Some(dma),
{
    BlockConfig::dma(name, capacity_blocks, irq_driven, dma).with_max_blocks_per_request(ADMA2_MAX_BLOCKS).with_max_segment_size(ADMA2_MAX_TRANSFER_SIZE)
}

} // verus!
