//! Probe policy of the CV181x SD controller ("cvsd").
use vstd::prelude::*;

use crate::sdmmc::{Error, Phase};
use crate::sdmmc_rdif::{BLOCK_SIZE, BlockConfig, DEFAULT_DMA_MASK, DmaDomainId, FIFO_MAX_BLOCKS_PER_REQUEST, fifo_config};

verus! {

pub const DEVICE_NAME: &'static str = "cvsd";

/// The controller is driven by FIFO polling: no completion interrupt.
pub const CVSD_IRQ_DRIVEN: bool = false;

/// Card-kind restrictions read from the device tree node.
#[derive(Clone, Copy, Debug, PartialEq, Eq, Structural)]
pub struct CvsdFdtPolicy {
    pub no_sd: bool,
    pub no_mmc: bool,
    pub no_sdio: bool,
    pub non_removable: bool,
}

/// Which card kinds initialisation probes, and in which order.
#[derive(Clone, Copy, Debug, PartialEq, Eq, Structural)]
pub enum CardInitPreference {
    SdFirst,
    MmcFirst,
    SdOnly,
}

/// Block configuration of the controller for a card of `capacity_blocks`.
pub fn cvsd_block_config(capacity_blocks: u64) -> (c: BlockConfig)
    ensures
        c.name == DEVICE_NAME,
        c.capacity_blocks == capacity_blocks,
        c.dma_mask == DEFAULT_DMA_MASK,
        c.dma_domain == DmaDomainId(0),
        c.max_blocks_per_request == FIFO_MAX_BLOCKS_PER_REQUEST,
        c.max_segment_size == BLOCK_SIZE * FIFO_MAX_BLOCKS_PER_REQUEST,
        c.irq_driven == CVSD_IRQ_DRIVEN,
        c.dma is None,
{
    fifo_config(DEVICE_NAME, capacity_blocks, CVSD_IRQ_DRIVEN)
}

/// Probe order for a device-tree policy: a fixed (non-removable) or
/// SD-less slot probes eMMC first unless eMMC is excluded too, in which
/// case only SD is probed; a slot without eMMC probes only SD; any other
/// slot probes SD first.
pub fn card_init_preference(policy: CvsdFdtPolicy) -> (p: CardInitPreference)
    ensures
        p == (if policy.no_sd || policy.non_removable {
            if policy.no_mmc { CardInitPreference::SdOnly } else { CardInitPreference::MmcFirst }
        } else if policy.no_mmc {
            CardInitPreference::SdOnly
        } else {
            CardInitPreference::SdFirst
        }),
{
    if policy.no_sd || policy.non_removable {
        if policy.no_mmc {
            return CardInitPreference::SdOnly;
        }
        CardInitPreference::MmcFirst
    } else if policy.no_mmc {
        CardInitPreference::SdOnly
    } else {
        CardInitPreference::SdFirst
    }
}

pub open spec fn spec_is_absent_card_init_error(err: Error) -> bool {
    match err {
        Error::NoCard => true,
        Error::Timeout(ctx) | Error::Crc(ctx) | Error::BadResponse(ctx) => ctx.cmd is Some && (
        ctx.phase is CommandSend || ctx.phase is ResponseWait || ctx.phase is Init),
        _ => false,
    }
}

/// Whether an initialisation failure means the slot holds no responsive
/// card (so the controller is skipped instead of reported as broken): no
/// card, or a command-line timeout/CRC/bad response while a command was
/// being sent or answered during initialisation.
pub fn is_absent_card_init_error(err: Error) -> (r: bool)
    ensures
        r == spec_is_absent_card_init_error(err),
{
    match err {
        Error::NoCard => true,
        Error::Timeout(ctx) | Error::Crc(ctx) | Error::BadResponse(ctx) => {
            ctx.cmd.is_some() && matches!(ctx.phase, Phase::CommandSend | Phase::ResponseWait | Phase::Init)
        },
        _ => false,
    }
}


/// Size mapped for the TOP syscon block when the device tree gives none.
pub const DEFAULT_SYSCON_SIZE: usize = 0x8000;

/// Why the controller is not registered.
#[derive(Clone, Copy, Debug, PartialEq, Eq)]
pub enum CvsdProbeError {
    /// The slot holds no responsive card: the controller is skipped.
    NotMatch,
    /// Card initialisation failed otherwise.
    InitFailed(Error),
    /// The TOP syscon region is smaller than the driver needs.
    SysconTooSmall { size: u64, required: u64 },
    /// No syscon node describes the TOP syscon block.
    SysconNotFound,
}

/// Data-bus width of the SD pads.
#[derive(Clone, Copy, Debug, PartialEq, Eq, Structural)]
pub enum BusWidth {
    Bit1,
    Bit4,
}

/// A device-tree `u32` property, or `default` when it is absent.
pub fn fdt_u32(value: Option<u32>, default: u32) -> (r: u32)
    ensures
        r == (match value {
            Some(v) => v,
            None => default,
        }),
{
    match value {
        Some(v) => v,
        None => default,
    }
}

/// Bus width for the `bus-width` property: one bit when it says 1, four
/// bits otherwise (the SD0 pads have four data lines, so 8 is clamped).
pub fn cv181x_bus_width(bus_width: Option<u32>) -> (w: BusWidth)
    ensures
        w == (if bus_width == Some(1u32) { BusWidth::Bit1 } else { BusWidth::Bit4 }),
{
    match fdt_u32(bus_width, 4) {
        1 => BusWidth::Bit1,
        _ => BusWidth::Bit4,
    }
}

/// Size to map for the TOP syscon block: the node's size or the default,
/// which must cover the `required` bytes that the driver touches.
pub fn cv181x_syscon_map_size(size: Option<u64>, required: u64) -> (r: Result<usize, CvsdProbeError>)
    ensures
        ({
            let s = match size {
                Some(v) => v,
                None => DEFAULT_SYSCON_SIZE as u64,
            };
            &&& s < required ==> r == Err::<usize, CvsdProbeError>(CvsdProbeError::SysconTooSmall { size: s, required })
            &&& s >= required ==> r == Ok::<usize, CvsdProbeError>(s as usize)
        }),
{
    let map_size = match size {
        Some(v) => v,
        None => DEFAULT_SYSCON_SIZE as u64,
    };
    if map_size < required {
        return Err(CvsdProbeError::SysconTooSmall { size: map_size, required });
    }
    Ok(#[verifier::truncate] (map_size as usize))
}

/// First syscon node (by its first register, `None` for a node without
/// one) at address `base`.
pub open spec fn spec_find_syscon(regs: Seq<Option<(u64, Option<u64>)>>, base: u64) -> Option<Option<u64>>
    decreases regs.len(),
{
    if regs.len() == 0 {
        None
    } else {
        match regs[0] {
            Some((addr, size)) => if addr == base {
                Some(size)
            } else {
                spec_find_syscon(regs.drop_first(), base)
            },
            None => spec_find_syscon(regs.drop_first(), base),
        }
    }
}

/// Address and size to map for the TOP syscon block at `base`, given the
/// first register of each syscon node.
pub fn cv181x_syscon(regs: &[Option<(u64, Option<u64>)>], base: u64, required: u64) -> (r: Result<(usize, usize), CvsdProbeError>)
    ensures
        match spec_find_syscon(regs@, base) {
            None => r == Err::<(usize, usize), CvsdProbeError>(CvsdProbeError::SysconNotFound),
            Some(size) => {
                let s = match size {
                    Some(v) => v,
                    None => DEFAULT_SYSCON_SIZE as u64,
                };
                &&& s < required ==> r == Err::<(usize, usize), CvsdProbeError>(CvsdProbeError::SysconTooSmall { size: s, required })
                &&& s >= required ==> r == Ok::<(usize, usize), CvsdProbeError>((base as usize, s as usize))
            },
        },
{
    let mut i: usize = 0;
    assert(regs@.subrange(0, regs@.len() as int) =~= regs@);
    while i < regs.len()
        invariant
            i <= regs@.len(),
            spec_find_syscon(regs@, base) == spec_find_syscon(regs@.subrange(i as int, regs@.len() as int), base),
        decreases regs.len() - i,
    {
        proof {
            let rest = regs@.subrange(i as int, regs@.len() as int);
            assert(rest[0] == regs@[i as int]);
            assert(rest.drop_first() =~= regs@.subrange(i + 1, regs@.len() as int));
        }
        if let Some((addr, size)) = regs[i] {
            if addr == base {
                return match cv181x_syscon_map_size(size, required) {
                    Ok(map) => Ok((#[verifier::truncate] (addr as usize), map)),
                    Err(e) => Err(e),
                };
            }
        }
        i = i + 1;
    }
    assert(regs@.subrange(i as int, regs@.len() as int) =~= Seq::<Option<(u64, Option<u64>)>>::empty());
    Err(CvsdProbeError::SysconNotFound)
}

/// Probe outcome of a failed card initialisation: an absent card skips the
/// controller, anything else is an initialisation failure.
pub fn card_init_error(err: Error) -> (e: CvsdProbeError)
    ensures
        spec_is_absent_card_init_error(err) ==> e == CvsdProbeError::NotMatch,
        !spec_is_absent_card_init_error(err) ==> e == CvsdProbeError::InitFailed(err),
{
    if is_absent_card_init_error(err) {
        return CvsdProbeError::NotMatch;
    }
    CvsdProbeError::InitFailed(err)
}

/// Device-tree policy of a slot from the presence of its properties.
pub fn cvsd_fdt_policy(no_sd: bool, no_mmc: bool, no_sdio: bool, non_removable: bool) -> (p: CvsdFdtPolicy)
    ensures
        p == (CvsdFdtPolicy { no_sd, no_mmc, no_sdio, non_removable }),
{
    CvsdFdtPolicy { no_sd, no_mmc, no_sdio, non_removable }
}

} // verus!
