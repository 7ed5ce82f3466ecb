//! Emulated local APIC: the virtual-APIC register page, the register
//! read/write handlers, LVT masking, ICR decoding and IPI destination
//! computation. Work that belongs to the virtual timer or to other vCPUs is
//! handed back to the caller as a list of actions.
use vstd::prelude::*;

use crate::errno::AxError;

verus! {

/// Index of the 32-bit register word that holds bit `vector`.
pub fn extract_index_u32(vector: u32) -> (idx: usize)
    ensures
        idx == vector / 32,
{
    proof {
        assert(vector >> 5u32 == vector / 32) by (bit_vector);
    }
    (vector >> 5) as usize
}

/// Register word and bit position of `vector` in a 256-bit vector register.
pub fn extract_index_and_bitpos_u32(vector: u32) -> (r: (usize, usize))
    ensures
        r.0 == vector / 32,
        r.1 == vector % 32,
        r.0 * 32 + r.1 == vector,
{
    proof {
        assert(vector & 0x1Fu32 == vector % 32) by (bit_vector);
    }
    (extract_index_u32(vector), (vector & 0x1F) as usize)
}

/// Task-priority class of a priority register value (bits 7:4).
pub fn prio(x: u32) -> (r: u32)
    ensures
        r == (x / 16) % 16,
{
    proof {
        assert((x >> 4u32) & 0xfu32 == (x / 16) % 16) by (bit_vector);
    }
    (x >> 4) & 0xf
}

/// The processor priority that results from task priority `tpr` and the
/// highest in-service vector `isrv`: the task priority when its class is at
/// least the in-service class, the in-service class otherwise.
pub fn processor_priority(tpr: u32, isrv: u32) -> (ppr: u32)
    ensures
        (tpr / 16) % 16 >= (isrv / 16) % 16 ==> ppr == tpr,
        (tpr / 16) % 16 < (isrv / 16) % 16 ==> ppr == isrv & 0xf0,
{
    if prio(tpr) >= prio(isrv) {
        tpr
    } else {
        isrv & 0xf0
    }
}


/// LVT mask bit.
pub const APIC_LVT_M: u32 = 0x1_0000;
/// LVT delivery-status bit.
pub const APIC_LVT_DS: u32 = 0x1000;
/// LVT vector field.
pub const APIC_LVT_VECTOR: u32 = 0xff;
/// LVT delivery-mode field (bits 10:8).
pub const LVT_DELIVERY_MODE: u32 = 0x700;
/// ExtINT delivery mode of LINT0/LINT1.
pub const LVT_DELIVERY_EXTINT: u32 = 0x700;
/// LINT trigger-mode bit.
pub const LVT_TRIGGER_MODE: u32 = 0x8000;
/// LINT remote-IRR bit.
pub const LVT_REMOTE_IRR: u32 = 0x4000;
/// LINT input-pin-polarity bit.
pub const LVT_PIN_POLARITY: u32 = 0x2000;
/// LVT timer-mode field (bits 18:17).
pub const LVT_TIMER_MODE: u32 = 0x6_0000;
/// Value of an LVT entry after reset: masked.
pub const RESET_LVT: u32 = 0x1_0000;
/// APIC software-enable bit of the spurious-interrupt vector register.
pub const SVR_APIC_ENABLED: u32 = 0x100;
/// Spurious-interrupt vector register value after reset.
pub const RESET_SPURIOUS_INTERRUPT_VECTOR: u32 = 0xff;
/// "Send illegal vector" bit of the error-status register.
pub const ESR_SEND_ILLEGAL_VECTOR: u32 = 0x20;
/// Delivery-status bit of the low ICR word.
pub const ICR_DELIVERY_STATUS: u32 = 0x1000;
/// Destination-mode bit of the low ICR word.
pub const ICR_DESTINATION_MODE: u32 = 0x800;
/// Broadcast destination in xAPIC mode.
pub const XAPIC_BROADCAST_DEST_ID: u32 = 0xff;
/// Broadcast destination in x2APIC mode.
pub const X2APIC_BROADCAST_DEST_ID: u32 = 0xffff_ffff;
/// xAPIC global-enable bit of the APIC base MSR.
pub const APIC_BASE_XAPIC_ENABLED: u64 = 0x800;
/// x2APIC-enable bit of the APIC base MSR.
pub const APIC_BASE_X2APIC_ENABLED: u64 = 0x400;
/// Bits of the logical destination register below the logical APIC ID.
pub const LDR_RESERVED: u32 = 0x00ff_ffff;
/// Bits of the destination format register below the model field.
pub const APIC_DFR_RESERVED: u32 = 0x0fff_ffff;
/// Model field of the destination format register.
pub const APIC_DFR_MODEL_MASK: u32 = 0xf000_0000;

/// Width of a register access.
#[derive(Clone, Copy, Debug, PartialEq, Eq, Structural)]
pub enum AccessWidth {
    Byte,
    Word,
    Dword,
    Qword,
}

/// Register addressed by an xAPIC MMIO or x2APIC MSR access. The index of
/// `ISR`, `TMR` and `IRR` selects one of their eight 32-bit words.
#[derive(Clone, Copy, Debug, PartialEq, Eq, Structural)]
pub enum ApicRegOffset {
    ID,
    Version,
    TPR,
    APR,
    PPR,
    EOI,
    RRR,
    LDR,
    DFR,
    SIVR,
    ISR(u8),
    TMR(u8),
    IRR(u8),
    ESR,
    LvtCMCI,
    ICRLow,
    ICRHi,
    LvtTimer,
    LvtThermal,
    LvtPmc,
    LvtLint0,
    LvtLint1,
    LvtErr,
    TimerInitCount,
    TimerCurCount,
    TimerDivConf,
    SelfIPI,
}

impl ApicRegOffset {
    /// The word index of a vector register is one of the eight words.
    pub open spec fn wf(self) -> bool {
        match self {
            ApicRegOffset::ISR(i) => i < 8,
            ApicRegOffset::TMR(i) => i < 8,
            ApicRegOffset::IRR(i) => i < 8,
            _ => true,
        }
    }
}

/// Mode of the APIC timer (LVT timer bits 18:17).
#[derive(Clone, Copy, Debug, PartialEq, Eq, Structural)]
pub enum TimerMode {
    OneShot,
    Periodic,
    TSCDeadline,
}

/// Delivery mode of an IPI (ICR bits 10:8).
#[derive(Clone, Copy, Debug, PartialEq, Eq, Structural)]
pub enum DeliveryMode {
    Fixed,
    LowestPriority,
    SMI,
    Reserved011,
    NMI,
    INIT,
    StartUp,
    Reserved111,
}

/// Destination shorthand of an IPI (ICR bits 19:18).
#[derive(Clone, Copy, Debug, PartialEq, Eq, Structural)]
pub enum DestinationShorthand {
    NoShorthand,
    SelfOnly,
    AllIncludingSelf,
    AllExcludingSelf,
}

/// Interpretation of logical destinations (DFR bits 31:28).
#[derive(Clone, Copy, Debug, PartialEq, Eq, Structural)]
pub enum DestinationModel {
    Flat,
    Cluster,
}

/// The seven local vector table entries.
#[derive(Clone, Copy, Debug, PartialEq, Eq, Structural)]
pub enum LvtKind {
    Cmci,
    Timer,
    Thermal,
    Pmc,
    Lint0,
    Lint1,
    Error,
}

/// The registers of the virtual-APIC page. Only the low 32 bits of each
/// 16-byte field of `ISR`, `TMR` and `IRR` are used.
#[derive(Clone, Copy)]
pub struct ApicPage {
    pub id: u32,
    pub version: u32,
    pub tpr: u32,
    pub ppr: u32,
    pub ldr: u32,
    pub dfr: u32,
    pub svr: u32,
    pub isr: [u32; 8],
    pub tmr: [u32; 8],
    pub irr: [u32; 8],
    pub esr: u32,
    pub lvt_cmci: u32,
    pub icr_lo: u32,
    pub icr_hi: u32,
    pub lvt_timer: u32,
    pub lvt_thermal: u32,
    pub lvt_pmi: u32,
    pub lvt_lint0: u32,
    pub lvt_lint1: u32,
    pub lvt_error: u32,
    pub icr_timer: u32,
    pub dcr_timer: u32,
    pub self_ipi: u32,
}

/// Snapshot of the LVT entries as last accepted by a write.
#[derive(Clone, Copy)]
pub struct LocalVectorTable {
    pub lvt_cmci: u32,
    pub lvt_timer: u32,
    pub lvt_thermal: u32,
    pub lvt_perf_count: u32,
    pub lvt_lint0: u32,
    pub lvt_lint1: u32,
    pub lvt_err: u32,
}

/// The vCPUs of the running VM as the hypervisor reports them.
#[derive(Clone, Copy)]
pub struct VmVcpus {
    /// Bit `i` is set when vCPU `i` is active.
    pub active_mask: u64,
    /// Number of vCPUs of the VM.
    pub vcpu_num: u32,
}

/// Work that a register write leaves to the virtual timer or to the
/// hypervisor, in the order in which it is to be done.
#[derive(Clone, Copy, Debug, PartialEq, Eq, Structural)]
pub enum VlapicAction {
    /// Stop the APIC timer.
    TimerStop,
    /// Restart the APIC timer if it runs in periodic mode.
    TimerRestartIfPeriodic,
    /// Hand the new LVT timer entry to the timer.
    TimerWriteLvt(u32),
    /// Hand the new initial count to the timer.
    TimerWriteInitialCount(u32),
    /// Hand the new divide configuration to the timer.
    TimerWriteDivideConfig(u32),
    /// Raise a fixed interrupt on a vCPU.
    SetIntr { vcpu: u32, vector: u32, level: bool },
    /// Inject an NMI into a vCPU.
    InjectNmi { vcpu: u32 },
    /// Deliver an INIT or start-up IPI to a vCPU.
    InitSipi { vcpu: u32, mode: DeliveryMode, icr_low: u32 },
    /// Handle a self IPI written in x2APIC mode.
    SelfIpi,
}

/// Abstract state of an emulated local APIC.
pub struct VlapicState {
    pub page: ApicPage,
    pub vapic_id: u32,
    pub esr_pending: u32,
    pub esr_firing: i32,
    pub apic_base: u64,
    pub svr_last: u32,
    pub lvt_last: LocalVectorTable,
}

/// Virtual-APIC registers of one vCPU.
pub struct VirtualApicRegs {
    page: ApicPage,
    vapic_id: u32,
    esr_pending: u32,
    esr_firing: i32,
    /// Highest in-service vector; no write ever sets one.
    isrv: u32,
    apic_base: u64,
    svr_last: u32,
    lvt_last: LocalVectorTable,
}

impl View for VirtualApicRegs {
    type V = VlapicState;

    closed spec fn view(&self) -> VlapicState {
        VlapicState {
            page: self.page,
            vapic_id: self.vapic_id,
            esr_pending: self.esr_pending,
            esr_firing: self.esr_firing,
            apic_base: self.apic_base,
            svr_last: self.svr_last,
            lvt_last: self.lvt_last,
        }
    }
}

pub open spec fn spec_x2apic_enabled(apic_base: u64) -> bool {
    apic_base & APIC_BASE_XAPIC_ENABLED != 0 && apic_base & APIC_BASE_X2APIC_ENABLED != 0
}

pub open spec fn spec_xapic_enabled(apic_base: u64) -> bool {
    apic_base & APIC_BASE_XAPIC_ENABLED != 0 && apic_base & APIC_BASE_X2APIC_ENABLED == 0
}

pub open spec fn spec_timer_mode(lvt_timer: u32) -> Option<TimerMode> {
    let m = (lvt_timer >> 17u32) & 3;
    if m == 0 {
        Some(TimerMode::OneShot)
    } else if m == 1 {
        Some(TimerMode::Periodic)
    } else if m == 2 {
        Some(TimerMode::TSCDeadline)
    } else {
        None
    }
}

pub open spec fn spec_delivery_mode(icr_low: u32) -> DeliveryMode {
    let m = (icr_low >> 8u32) & 7;
    if m == 0 {
        DeliveryMode::Fixed
    } else if m == 1 {
        DeliveryMode::LowestPriority
    } else if m == 2 {
        DeliveryMode::SMI
    } else if m == 3 {
        DeliveryMode::Reserved011
    } else if m == 4 {
        DeliveryMode::NMI
    } else if m == 5 {
        DeliveryMode::INIT
    } else if m == 6 {
        DeliveryMode::StartUp
    } else {
        DeliveryMode::Reserved111
    }
}

pub open spec fn spec_shorthand(icr_low: u32) -> DestinationShorthand {
    let m = (icr_low >> 18u32) & 3;
    if m == 0 {
        DestinationShorthand::NoShorthand
    } else if m == 1 {
        DestinationShorthand::SelfOnly
    } else if m == 2 {
        DestinationShorthand::AllIncludingSelf
    } else {
        DestinationShorthand::AllExcludingSelf
    }
}

pub open spec fn spec_destination_model(dfr: u32) -> Option<DestinationModel> {
    let m = dfr >> 28u32;
    if m == 0xf {
        Some(DestinationModel::Flat)
    } else if m == 0 {
        Some(DestinationModel::Cluster)
    } else {
        None
    }
}

/// Timer mode encoded in an LVT timer entry; `None` for the reserved value.
pub fn timer_mode_of(lvt_timer: u32) -> (r: Option<TimerMode>)
    ensures
        r == spec_timer_mode(lvt_timer),
{
    let m = (lvt_timer >> 17) & 3;
    if m == 0 {
        Some(TimerMode::OneShot)
    } else if m == 1 {
        Some(TimerMode::Periodic)
    } else if m == 2 {
        Some(TimerMode::TSCDeadline)
    } else {
        None
    }
}

/// Delivery mode encoded in a low ICR word.
pub fn delivery_mode_of(icr_low: u32) -> (r: DeliveryMode)
    ensures
        r == spec_delivery_mode(icr_low),
{
    let m = (icr_low >> 8) & 7;
    if m == 0 {
        DeliveryMode::Fixed
    } else if m == 1 {
        DeliveryMode::LowestPriority
    } else if m == 2 {
        DeliveryMode::SMI
    } else if m == 3 {
        DeliveryMode::Reserved011
    } else if m == 4 {
        DeliveryMode::NMI
    } else if m == 5 {
        DeliveryMode::INIT
    } else if m == 6 {
        DeliveryMode::StartUp
    } else {
        DeliveryMode::Reserved111
    }
}

/// Destination shorthand encoded in a low ICR word.
pub fn shorthand_of(icr_low: u32) -> (r: DestinationShorthand)
    ensures
        r == spec_shorthand(icr_low),
{
    let m = (icr_low >> 18) & 3;
    if m == 0 {
        DestinationShorthand::NoShorthand
    } else if m == 1 {
        DestinationShorthand::SelfOnly
    } else if m == 2 {
        DestinationShorthand::AllIncludingSelf
    } else {
        DestinationShorthand::AllExcludingSelf
    }
}

/// Destination model encoded in a DFR value; `None` for an unknown model.
pub fn destination_model_of(dfr: u32) -> (r: Option<DestinationModel>)
    ensures
        r == spec_destination_model(dfr),
{
    let m = dfr >> 28;
    if m == 0xf {
        Some(DestinationModel::Flat)
    } else if m == 0 {
        Some(DestinationModel::Cluster)
    } else {
        None
    }
}

/// Bits that an LVT entry of the given kind keeps: mask, delivery status
/// and vector, plus the fields that the entry has.
pub open spec fn spec_lvt_write_mask(kind: LvtKind) -> u32 {
    let base = APIC_LVT_M | APIC_LVT_DS | APIC_LVT_VECTOR;
    match kind {
        LvtKind::Timer => base | LVT_TIMER_MODE,
        LvtKind::Error => base,
        LvtKind::Lint0 => base | LVT_TRIGGER_MODE | LVT_REMOTE_IRR | LVT_PIN_POLARITY | LVT_DELIVERY_MODE,
        LvtKind::Lint1 => base | LVT_TRIGGER_MODE | LVT_REMOTE_IRR | LVT_PIN_POLARITY | LVT_DELIVERY_MODE,
        _ => base | LVT_DELIVERY_MODE,
    }
}

pub fn lvt_write_mask(kind: LvtKind) -> (m: u32)
    ensures
        m == spec_lvt_write_mask(kind),
{
    let base = APIC_LVT_M | APIC_LVT_DS | APIC_LVT_VECTOR;
    match kind {
        LvtKind::Timer => base | LVT_TIMER_MODE,
        LvtKind::Error => base,
        LvtKind::Lint0 => base | LVT_TRIGGER_MODE | LVT_REMOTE_IRR | LVT_PIN_POLARITY | LVT_DELIVERY_MODE,
        LvtKind::Lint1 => base | LVT_TRIGGER_MODE | LVT_REMOTE_IRR | LVT_PIN_POLARITY | LVT_DELIVERY_MODE,
        _ => base | LVT_DELIVERY_MODE,
    }
}

pub open spec fn spec_lvt_kind(offset: ApicRegOffset) -> Option<LvtKind> {
    match offset {
        ApicRegOffset::LvtCMCI => Some(LvtKind::Cmci),
        ApicRegOffset::LvtTimer => Some(LvtKind::Timer),
        ApicRegOffset::LvtThermal => Some(LvtKind::Thermal),
        ApicRegOffset::LvtPmc => Some(LvtKind::Pmc),
        ApicRegOffset::LvtLint0 => Some(LvtKind::Lint0),
        ApicRegOffset::LvtLint1 => Some(LvtKind::Lint1),
        ApicRegOffset::LvtErr => Some(LvtKind::Error),
        _ => None,
    }
}

pub fn lvt_kind_of(offset: ApicRegOffset) -> (r: Option<LvtKind>)
    ensures
        r == spec_lvt_kind(offset),
{
    match offset {
        ApicRegOffset::LvtCMCI => Some(LvtKind::Cmci),
        ApicRegOffset::LvtTimer => Some(LvtKind::Timer),
        ApicRegOffset::LvtThermal => Some(LvtKind::Thermal),
        ApicRegOffset::LvtPmc => Some(LvtKind::Pmc),
        ApicRegOffset::LvtLint0 => Some(LvtKind::Lint0),
        ApicRegOffset::LvtLint1 => Some(LvtKind::Lint1),
        ApicRegOffset::LvtErr => Some(LvtKind::Error),
        _ => None,
    }
}

/// LVT entry of the given kind in the register page.
pub open spec fn page_lvt(p: ApicPage, kind: LvtKind) -> u32 {
    match kind {
        LvtKind::Cmci => p.lvt_cmci,
        LvtKind::Timer => p.lvt_timer,
        LvtKind::Thermal => p.lvt_thermal,
        LvtKind::Pmc => p.lvt_pmi,
        LvtKind::Lint0 => p.lvt_lint0,
        LvtKind::Lint1 => p.lvt_lint1,
        LvtKind::Error => p.lvt_error,
    }
}

pub open spec fn page_set_lvt(p: ApicPage, kind: LvtKind, v: u32) -> ApicPage {
    match kind {
        LvtKind::Cmci => ApicPage { lvt_cmci: v, ..p },
        LvtKind::Timer => ApicPage { lvt_timer: v, ..p },
        LvtKind::Thermal => ApicPage { lvt_thermal: v, ..p },
        LvtKind::Pmc => ApicPage { lvt_pmi: v, ..p },
        LvtKind::Lint0 => ApicPage { lvt_lint0: v, ..p },
        LvtKind::Lint1 => ApicPage { lvt_lint1: v, ..p },
        LvtKind::Error => ApicPage { lvt_error: v, ..p },
    }
}

pub open spec fn table_lvt(t: LocalVectorTable, kind: LvtKind) -> u32 {
    match kind {
        LvtKind::Cmci => t.lvt_cmci,
        LvtKind::Timer => t.lvt_timer,
        LvtKind::Thermal => t.lvt_thermal,
        LvtKind::Pmc => t.lvt_perf_count,
        LvtKind::Lint0 => t.lvt_lint0,
        LvtKind::Lint1 => t.lvt_lint1,
        LvtKind::Error => t.lvt_err,
    }
}

pub open spec fn table_set_lvt(t: LocalVectorTable, kind: LvtKind, v: u32) -> LocalVectorTable {
    match kind {
        LvtKind::Cmci => LocalVectorTable { lvt_cmci: v, ..t },
        LvtKind::Timer => LocalVectorTable { lvt_timer: v, ..t },
        LvtKind::Thermal => LocalVectorTable { lvt_thermal: v, ..t },
        LvtKind::Pmc => LocalVectorTable { lvt_perf_count: v, ..t },
        LvtKind::Lint0 => LocalVectorTable { lvt_lint0: v, ..t },
        LvtKind::Lint1 => LocalVectorTable { lvt_lint1: v, ..t },
        LvtKind::Error => LocalVectorTable { lvt_err: v, ..t },
    }
}

/// Accepting the LVT entry of `kind` currently in the page: the entry is
/// forced masked while the APIC is software-enabled, cut down to the
/// entry's fields, stored in the page and in the snapshot; a timer entry is
/// also handed to the timer.
pub open spec fn spec_write_lvt(s: VlapicState, kind: LvtKind) -> (VlapicState, Seq<VlapicAction>) {
    let raw = page_lvt(s.page, kind);
    let forced = if s.page.svr & SVR_APIC_ENABLED != 0 { raw | APIC_LVT_M } else { raw };
    let v = forced & spec_lvt_write_mask(kind);
    (
        VlapicState {
            page: page_set_lvt(s.page, kind, v),
            lvt_last: table_set_lvt(s.lvt_last, kind, v),
            ..s
        },
        if kind == LvtKind::Timer { seq![VlapicAction::TimerWriteLvt(v)] } else { Seq::empty() },
    )
}

/// Setting the mask bit of the entry of `kind` and accepting it.
pub open spec fn spec_mask_lvt(s: VlapicState, kind: LvtKind) -> (VlapicState, Seq<VlapicAction>) {
    spec_write_lvt(
        VlapicState { page: page_set_lvt(s.page, kind, page_lvt(s.page, kind) | APIC_LVT_M), ..s },
        kind,
    )
}

/// Masking all seven LVT entries, in the order CMCI, timer, thermal,
/// performance counter, LINT0, LINT1, error.
pub open spec fn spec_mask_lvts(s: VlapicState) -> (VlapicState, Seq<VlapicAction>) {
    let r1 = spec_mask_lvt(s, LvtKind::Cmci);
    let r2 = spec_mask_lvt(r1.0, LvtKind::Timer);
    let r3 = spec_mask_lvt(r2.0, LvtKind::Thermal);
    let r4 = spec_mask_lvt(r3.0, LvtKind::Pmc);
    let r5 = spec_mask_lvt(r4.0, LvtKind::Lint0);
    let r6 = spec_mask_lvt(r5.0, LvtKind::Lint1);
    let r7 = spec_mask_lvt(r6.0, LvtKind::Error);
    (r7.0, r1.1 + r2.1 + r3.1 + r4.1 + r5.1 + r6.1 + r7.1)
}

/// Accepting a new SVR value already in the page: disabling the APIC stops
/// the timer and masks every LVT entry; enabling it restarts a periodic
/// timer.
pub open spec fn spec_write_svr(s: VlapicState) -> (VlapicState, Seq<VlapicAction>) {
    let new = s.page.svr;
    let old = s.svr_last;
    let s1 = VlapicState { svr_last: new, ..s };
    if old & SVR_APIC_ENABLED != 0 && new & SVR_APIC_ENABLED == 0 {
        let m = spec_mask_lvts(s1);
        (m.0, seq![VlapicAction::TimerStop] + m.1)
    } else if old & SVR_APIC_ENABLED == 0 && new & SVR_APIC_ENABLED != 0 {
        (s1, seq![VlapicAction::TimerRestartIfPeriodic])
    } else {
        (s1, Seq::empty())
    }
}

/// Bit `i` of a destination mask.
pub open spec fn mask_has(m: u64, i: u32) -> bool {
    m & (1u64 << i) != 0
}

/// The low `n` bits.
pub open spec fn low_bits(n: u32) -> u64 {
    if n >= 64 { u64::MAX } else { ((1u64 << n) - 1) as u64 }
}

/// Destination fields of the ICR as (destination, is broadcast).
pub open spec fn spec_icr_destination(s: VlapicState) -> (u32, bool) {
    if spec_x2apic_enabled(s.apic_base) {
        (s.page.icr_hi, s.page.icr_hi == X2APIC_BROADCAST_DEST_ID)
    } else {
        let d = s.page.icr_hi >> 24u32;
        (d, d == XAPIC_BROADCAST_DEST_ID)
    }
}

/// Whether a logical destination `dest` addresses this APIC; an unknown
/// destination model is invalid data.
pub open spec fn spec_dest_field_matched(s: VlapicState, dest: u32) -> Result<bool, AxError> {
    if spec_x2apic_enabled(s.apic_base) {
        Ok(true)
    } else {
        let ldr = s.page.ldr;
        match spec_destination_model(s.page.dfr) {
            None => Err(AxError::InvalidData),
            Some(DestinationModel::Flat) => Ok((ldr >> 24u32) & (dest & 0xff) != 0),
            Some(DestinationModel::Cluster) => Ok(
                (ldr >> 28u32) == ((dest >> 4u32) & 0xf) && ((ldr >> 24u32) & 0xf) & (dest & 0xf) != 0
            ),
        }
    }
}

/// Destination vCPU mask of an IPI without shorthand.
pub open spec fn spec_dest_no_shorthand(
    s: VlapicState,
    is_broadcast: bool,
    dest: u32,
    is_phys: bool,
    vm: VmVcpus,
) -> Result<u64, AxError> {
    if is_broadcast {
        Ok(vm.active_mask)
    } else if is_phys {
        Ok(1u64 << dest)
    } else if vm.active_mask & low_bits(vm.vcpu_num) == 0 {
        Ok(0)
    } else {
        match spec_dest_field_matched(s, dest) {
            Err(e) => Err(e),
            Ok(m) => Ok(if m { vm.active_mask & low_bits(vm.vcpu_num) } else { 0 }),
        }
    }
}

/// Destination vCPU mask of an IPI.
pub open spec fn spec_calculate_dest(
    s: VlapicState,
    shorthand: DestinationShorthand,
    is_broadcast: bool,
    dest: u32,
    is_phys: bool,
    vm: VmVcpus,
) -> Result<u64, AxError> {
    match shorthand {
        DestinationShorthand::NoShorthand => spec_dest_no_shorthand(s, is_broadcast, dest, is_phys, vm),
        DestinationShorthand::SelfOnly => Ok(1u64 << s.vapic_id),
        DestinationShorthand::AllIncludingSelf => Ok(vm.active_mask),
        DestinationShorthand::AllExcludingSelf => Ok(vm.active_mask & !(1u64 << s.vapic_id)),
    }
}

/// What an IPI delivers to vCPU `i`.
pub open spec fn spec_delivery(i: u32, mode: DeliveryMode, vector: u32, icr_low: u32) -> Seq<VlapicAction> {
    match mode {
        DeliveryMode::Fixed => seq![VlapicAction::SetIntr { vcpu: i, vector, level: false }],
        DeliveryMode::NMI => seq![VlapicAction::InjectNmi { vcpu: i }],
        DeliveryMode::INIT => seq![VlapicAction::InitSipi { vcpu: i, mode, icr_low }],
        DeliveryMode::StartUp => seq![VlapicAction::InitSipi { vcpu: i, mode, icr_low }],
        _ => Seq::empty(),
    }
}

/// Deliveries to the vCPUs below `n` whose bit is set in `dmask`, in
/// increasing vCPU order.
pub open spec fn spec_deliveries(dmask: u64, mode: DeliveryMode, vector: u32, icr_low: u32, n: u32) -> Seq<VlapicAction>
    decreases n,
{
    if n == 0 {
        Seq::empty()
    } else {
        let i = (n - 1) as u32;
        spec_deliveries(dmask, mode, vector, icr_low, i) + (if mask_has(dmask, i) {
            spec_delivery(i, mode, vector, icr_low)
        } else {
            Seq::empty()
        })
    }
}

/// Whether an IPI is dropped: a fixed IPI with a vector below 16 (an
/// error), or an NMI/INIT/start-up sent to a shorthand that includes self.
pub open spec fn spec_icr_dropped(icr_low: u32) -> bool {
    let mode = spec_delivery_mode(icr_low);
    let sh = spec_shorthand(icr_low);
    (mode == DeliveryMode::Fixed && icr_low & 0xff < 16) || ((sh == DestinationShorthand::SelfOnly
        || sh == DestinationShorthand::AllIncludingSelf) && (mode == DeliveryMode::NMI || mode
        == DeliveryMode::INIT || mode == DeliveryMode::StartUp))
}

/// Whether an ICR command already in the page stays within the 64 vCPUs
/// that a destination mask can name.
pub open spec fn spec_icr_in_range(s: VlapicState, vm: VmVcpus) -> bool {
    let lo = s.page.icr_lo;
    let sh = spec_shorthand(lo);
    let d = spec_icr_destination(s);
    spec_icr_dropped(lo) || {
        &&& vm.vcpu_num <= 64
        &&& (sh == DestinationShorthand::SelfOnly || sh == DestinationShorthand::AllExcludingSelf)
            ==> s.vapic_id < 64
        &&& (sh == DestinationShorthand::NoShorthand && !d.1 && lo & ICR_DESTINATION_MODE != 0)
            ==> d.0 < 64
    }
}

/// Sending the IPI described by the ICR in the page.
pub open spec fn spec_write_icr(s: VlapicState, vm: VmVcpus) -> (VlapicState, Result<Seq<VlapicAction>, AxError>) {
    let lo = s.page.icr_lo & !ICR_DELIVERY_STATUS;
    let s1 = VlapicState { page: ApicPage { icr_lo: lo, ..s.page }, ..s };
    let d = spec_icr_destination(s1);
    let vector = lo & 0xff;
    let mode = spec_delivery_mode(lo);
    let sh = spec_shorthand(lo);
    let is_phys = lo & ICR_DESTINATION_MODE != 0;
    if mode == DeliveryMode::Fixed && vector < 16 {
        (
            VlapicState { esr_pending: s1.esr_pending | ESR_SEND_ILLEGAL_VECTOR, esr_firing: 1, ..s1 },
            Ok(Seq::empty()),
        )
    } else if spec_icr_dropped(lo) {
        (s1, Ok(Seq::empty()))
    } else {
        match spec_calculate_dest(s1, sh, d.1, d.0, is_phys, vm) {
            Err(e) => (s1, Err(e)),
            Ok(dmask) => (s1, Ok(spec_deliveries(dmask, mode, vector, lo, vm.vcpu_num))),
        }
    }
}

/// Whether a write can be handled: an ICR write must stay within the 64
/// vCPUs that a destination mask can name.
pub open spec fn spec_write_supported(
    s: VlapicState,
    offset: ApicRegOffset,
    val: usize,
    width: AccessWidth,
    vm: VmVcpus,
) -> bool {
    offset == ApicRegOffset::ICRLow ==> {
        let x2 = spec_x2apic_enabled(s.apic_base);
        let q = width == AccessWidth::Qword;
        let hi = if x2 && q { ((val as u64) >> 32u64) as u32 } else { s.page.icr_hi };
        (x2 != q) || spec_icr_in_range(
            VlapicState { page: ApicPage { icr_hi: hi, icr_lo: val as u32, ..s.page }, ..s },
            vm,
        )
    }
}

/// State and outcome of a register write.
pub open spec fn spec_handle_write(
    s: VlapicState,
    offset: ApicRegOffset,
    val: usize,
    width: AccessWidth,
    vm: VmVcpus,
) -> (VlapicState, Result<Seq<VlapicAction>, AxError>) {
    let data32 = val as u32;
    let p = s.page;
    match offset {
        ApicRegOffset::ID => (s, Ok(Seq::empty())),
        ApicRegOffset::EOI => (s, Ok(Seq::empty())),
        ApicRegOffset::LDR => (
            VlapicState { page: ApicPage { ldr: data32 & !LDR_RESERVED, ..p }, ..s },
            Ok(Seq::empty()),
        ),
        ApicRegOffset::DFR => (
            VlapicState {
                page: ApicPage { dfr: (data32 & APIC_DFR_MODEL_MASK) | APIC_DFR_RESERVED, ..p },
                ..s
            },
            Ok(Seq::empty()),
        ),
        ApicRegOffset::SIVR => {
            let r = spec_write_svr(VlapicState { page: ApicPage { svr: data32, ..p }, ..s });
            (r.0, Ok(r.1))
        },
        ApicRegOffset::ESR => (
            VlapicState { page: ApicPage { esr: s.esr_pending, ..p }, esr_pending: 0, ..s },
            Ok(Seq::empty()),
        ),
        ApicRegOffset::ICRLow => {
            let x2 = spec_x2apic_enabled(s.apic_base);
            let q = width == AccessWidth::Qword;
            if !(x2 && q) && x2 != q {
                (s, Err(AxError::InvalidInput))
            } else {
                let hi = if x2 && q { ((val as u64) >> 32u64) as u32 } else { p.icr_hi };
                spec_write_icr(VlapicState { page: ApicPage { icr_hi: hi, icr_lo: data32, ..p }, ..s }, vm)
            }
        },
        ApicRegOffset::TimerInitCount => match spec_timer_mode(p.lvt_timer) {
            None => (s, Err(AxError::InvalidData)),
            Some(TimerMode::TSCDeadline) => (s, Ok(Seq::empty())),
            Some(_) => (
                VlapicState { page: ApicPage { icr_timer: data32, ..p }, ..s },
                Ok(seq![VlapicAction::TimerWriteInitialCount(data32)]),
            ),
        },
        ApicRegOffset::TimerDivConf => (
            VlapicState { page: ApicPage { dcr_timer: data32, ..p }, ..s },
            Ok(seq![VlapicAction::TimerWriteDivideConfig(data32)]),
        ),
        ApicRegOffset::SelfIPI => if spec_x2apic_enabled(s.apic_base) {
            (VlapicState { page: ApicPage { self_ipi: data32, ..p }, ..s }, Ok(seq![VlapicAction::SelfIpi]))
        } else {
            (s, Err(AxError::InvalidInput))
        },
        _ => match spec_lvt_kind(offset) {
            Some(kind) => {
                let r = spec_write_lvt(VlapicState { page: page_set_lvt(p, kind, data32), ..s }, kind);
                (r.0, Ok(r.1))
            },
            None => (s, Err(AxError::InvalidInput)),
        },
    }
}

/// Value of a register read, with `current_count` the timer's current count.
pub open spec fn spec_handle_read(
    s: VlapicState,
    offset: ApicRegOffset,
    width: AccessWidth,
    current_count: u32,
) -> Result<u64, AxError> {
    let p = s.page;
    let t = s.lvt_last;
    match offset {
        ApicRegOffset::ID => Ok(p.id as u64),
        ApicRegOffset::Version => Ok(p.version as u64),
        ApicRegOffset::TPR => Ok(p.tpr as u64),
        ApicRegOffset::PPR => Ok(p.ppr as u64),
        ApicRegOffset::LDR => Ok(p.ldr as u64),
        ApicRegOffset::DFR => Ok(p.dfr as u64),
        ApicRegOffset::SIVR => Ok(p.svr as u64),
        ApicRegOffset::ISR(i) => Ok(p.isr@[i as int] as u64),
        ApicRegOffset::TMR(i) => Ok(p.tmr@[i as int] as u64),
        ApicRegOffset::IRR(i) => Ok(p.irr@[i as int] as u64),
        ApicRegOffset::ESR => Ok(p.esr as u64),
        ApicRegOffset::ICRLow => {
            let x2 = spec_x2apic_enabled(s.apic_base);
            let q = width == AccessWidth::Qword;
            if x2 && q {
                Ok(((p.icr_hi as u64) << 32u64) | (p.icr_lo as u64))
            } else if x2 != q {
                Err(AxError::InvalidInput)
            } else {
                Ok(p.icr_lo as u64)
            }
        },
        ApicRegOffset::ICRHi => Ok(p.icr_hi as u64),
        ApicRegOffset::LvtCMCI => Ok(t.lvt_cmci as u64),
        ApicRegOffset::LvtTimer => Ok(t.lvt_timer as u64),
        ApicRegOffset::LvtThermal => Ok(t.lvt_thermal as u64),
        ApicRegOffset::LvtPmc => Ok(t.lvt_perf_count as u64),
        ApicRegOffset::LvtLint0 => Ok(t.lvt_lint0 as u64),
        ApicRegOffset::LvtLint1 => Ok(t.lvt_lint1 as u64),
        ApicRegOffset::LvtErr => Ok(t.lvt_err as u64),
        ApicRegOffset::TimerInitCount => match spec_timer_mode(p.lvt_timer) {
            Some(TimerMode::OneShot) => Ok(p.icr_timer as u64),
            Some(TimerMode::Periodic) => Ok(p.icr_timer as u64),
            _ => Ok(0),
        },
        ApicRegOffset::TimerCurCount => Ok(current_count as u64),
        ApicRegOffset::TimerDivConf => Ok(p.dcr_timer as u64),
        _ => Ok(0),
    }
}

pub open spec fn result_as_usize(r: Result<u64, AxError>) -> Result<usize, AxError> {
    match r {
        Ok(v) => Ok(v as usize),
        Err(e) => Err(e),
    }
}

pub open spec fn actions_match(r: Result<Vec<VlapicAction>, AxError>, expected: Result<Seq<VlapicAction>, AxError>) -> bool {
    match expected {
        Ok(acts) => r is Ok && r->Ok_0@ == acts,
        Err(e) => r == Err::<Vec<VlapicAction>, AxError>(e),
    }
}

/// The state of a freshly created local APIC with ID `vapic_id`: a zeroed
/// register page, the SVR snapshot at its reset value and all LVT entries
/// masked.
pub open spec fn spec_reset_state(s: VlapicState, vapic_id: u32) -> bool {
    &&& s.vapic_id == vapic_id
    &&& s.esr_pending == 0
    &&& s.esr_firing == 0
    &&& s.apic_base == 0
    &&& s.svr_last == RESET_SPURIOUS_INTERRUPT_VECTOR
    &&& s.lvt_last.lvt_cmci == RESET_LVT && s.lvt_last.lvt_timer == RESET_LVT
    &&& s.lvt_last.lvt_thermal == RESET_LVT && s.lvt_last.lvt_perf_count == RESET_LVT
    &&& s.lvt_last.lvt_lint0 == RESET_LVT && s.lvt_last.lvt_lint1 == RESET_LVT
    &&& s.lvt_last.lvt_err == RESET_LVT
    &&& s.page.id == 0 && s.page.version == 0 && s.page.tpr == 0 && s.page.ppr == 0
    &&& s.page.ldr == 0 && s.page.dfr == 0 && s.page.svr == 0 && s.page.esr == 0
    &&& s.page.lvt_cmci == 0 && s.page.icr_lo == 0 && s.page.icr_hi == 0
    &&& s.page.lvt_timer == 0 && s.page.lvt_thermal == 0 && s.page.lvt_pmi == 0
    &&& s.page.lvt_lint0 == 0 && s.page.lvt_lint1 == 0 && s.page.lvt_error == 0
    &&& s.page.icr_timer == 0 && s.page.dcr_timer == 0 && s.page.self_ipi == 0
    &&& forall|i: int| 0 <= i < 8 ==> s.page.isr@[i] == 0 && s.page.tmr@[i] == 0 && s.page.irr@[i] == 0
}


/// The low `n` bits of a destination mask.
pub fn low_bits_of(n: u32) -> (m: u64)
    ensures
        m == low_bits(n),
{
    if n >= 64 {
        u64::MAX
    } else {
        proof {
            assert(n < 64 ==> (1u64 << n) >= 1) by (bit_vector);
        }
        (1u64 << n) - 1
    }
}

impl VirtualApicRegs {
    /// No in-service vector is recorded.
    pub closed spec fn wf(&self) -> bool {
        self.isrv == 0
    }

    /// A local APIC for vCPU `vcpu_id`, whose ID it takes, with a zeroed
    /// register page.
    pub fn new(vcpu_id: usize) -> (r: Self)
        ensures
            r.wf(),
            spec_reset_state(r@, vcpu_id as u32),
    {
        let page = ApicPage {
            id: 0,
            version: 0,
            tpr: 0,
            ppr: 0,
            ldr: 0,
            dfr: 0,
            svr: 0,
            isr: [0u32, 0, 0, 0, 0, 0, 0, 0],
            tmr: [0u32, 0, 0, 0, 0, 0, 0, 0],
            irr: [0u32, 0, 0, 0, 0, 0, 0, 0],
            esr: 0,
            lvt_cmci: 0,
            icr_lo: 0,
            icr_hi: 0,
            lvt_timer: 0,
            lvt_thermal: 0,
            lvt_pmi: 0,
            lvt_lint0: 0,
            lvt_lint1: 0,
            lvt_error: 0,
            icr_timer: 0,
            dcr_timer: 0,
            self_ipi: 0,
        };
        let lvt_last = LocalVectorTable {
            lvt_cmci: RESET_LVT,
            lvt_timer: RESET_LVT,
            lvt_thermal: RESET_LVT,
            lvt_perf_count: RESET_LVT,
            lvt_lint0: RESET_LVT,
            lvt_lint1: RESET_LVT,
            lvt_err: RESET_LVT,
        };
        VirtualApicRegs {
            page,
            vapic_id: #[verifier::truncate] (vcpu_id as u32),
            esr_pending: 0,
            esr_firing: 0,
            isrv: 0,
            apic_base: 0,
            svr_last: RESET_SPURIOUS_INTERRUPT_VECTOR,
            lvt_last,
        }
    }

    /// The APIC base MSR value.
    pub fn apic_base(&self) -> (r: u64)
        ensures
            r == self@.apic_base,
    {
        self.apic_base
    }

    /// Whether x2APIC mode is enabled.
    pub fn is_x2apic_enabled(&self) -> (r: bool)
        ensures
            r == spec_x2apic_enabled(self@.apic_base),
    {
        self.apic_base & APIC_BASE_XAPIC_ENABLED != 0 && self.apic_base & APIC_BASE_X2APIC_ENABLED != 0
    }

    /// Whether xAPIC mode (and not x2APIC mode) is enabled.
    pub fn is_xapic_enabled(&self) -> (r: bool)
        ensures
            r == spec_xapic_enabled(self@.apic_base),
    {
        self.apic_base & APIC_BASE_XAPIC_ENABLED != 0 && self.apic_base & APIC_BASE_X2APIC_ENABLED == 0
    }

    /// The timer mode of the LVT timer entry in the page; the reserved mode
    /// is invalid data.
    pub fn timer_mode(&self) -> (r: Result<TimerMode, AxError>)
        ensures
            match spec_timer_mode(self@.page.lvt_timer) {
                Some(m) => r == Ok::<TimerMode, AxError>(m),
                None => r == Err::<TimerMode, AxError>(AxError::InvalidData),
            },
    {
        match timer_mode_of(self.page.lvt_timer) {
            Some(m) => Ok(m),
            None => Err(AxError::InvalidData),
        }
    }

    fn page_lvt_get(&self, kind: LvtKind) -> (v: u32)
        ensures
            v == page_lvt(self@.page, kind),
    {
        match kind {
            LvtKind::Cmci => self.page.lvt_cmci,
            LvtKind::Timer => self.page.lvt_timer,
            LvtKind::Thermal => self.page.lvt_thermal,
            LvtKind::Pmc => self.page.lvt_pmi,
            LvtKind::Lint0 => self.page.lvt_lint0,
            LvtKind::Lint1 => self.page.lvt_lint1,
            LvtKind::Error => self.page.lvt_error,
        }
    }

    fn page_lvt_set(&mut self, kind: LvtKind, v: u32)
        ensures
            final(self)@ == (VlapicState { page: page_set_lvt(old(self)@.page, kind, v), ..old(self)@ }),
            final(self).isrv == old(self).isrv,
    {
        match kind {
            LvtKind::Cmci => self.page.lvt_cmci = v,
            LvtKind::Timer => self.page.lvt_timer = v,
            LvtKind::Thermal => self.page.lvt_thermal = v,
            LvtKind::Pmc => self.page.lvt_pmi = v,
            LvtKind::Lint0 => self.page.lvt_lint0 = v,
            LvtKind::Lint1 => self.page.lvt_lint1 = v,
            LvtKind::Error => self.page.lvt_error = v,
        }
    }

    fn table_lvt_set(&mut self, kind: LvtKind, v: u32)
        ensures
            final(self)@ == (VlapicState { lvt_last: table_set_lvt(old(self)@.lvt_last, kind, v), ..old(self)@ }),
            final(self).isrv == old(self).isrv,
    {
        match kind {
            LvtKind::Cmci => self.lvt_last.lvt_cmci = v,
            LvtKind::Timer => self.lvt_last.lvt_timer = v,
            LvtKind::Thermal => self.lvt_last.lvt_thermal = v,
            LvtKind::Pmc => self.lvt_last.lvt_perf_count = v,
            LvtKind::Lint0 => self.lvt_last.lvt_lint0 = v,
            LvtKind::Lint1 => self.lvt_last.lvt_lint1 = v,
            LvtKind::Error => self.lvt_last.lvt_err = v,
        }
    }

    /// Accepts the LVT entry of `kind` that was just written to the page.
    fn write_lvt(&mut self, kind: LvtKind) -> (acts: Vec<VlapicAction>)
        ensures
            final(self)@ == spec_write_lvt(old(self)@, kind).0,
            acts@ == spec_write_lvt(old(self)@, kind).1,
            final(self).isrv == old(self).isrv,
    {
        let mut val = self.page_lvt_get(kind);
        if self.page.svr & SVR_APIC_ENABLED != 0 {
            val = val | APIC_LVT_M;
        }
        val = val & lvt_write_mask(kind);
        self.page_lvt_set(kind, val);
        self.table_lvt_set(kind, val);
        let mut acts: Vec<VlapicAction> = Vec::new();
        if kind == LvtKind::Timer {
            acts.push(VlapicAction::TimerWriteLvt(val));
        }
        proof {
            assert(acts@ =~= spec_write_lvt(old(self)@, kind).1);
        }
        acts
    }

    fn mask_lvt(&mut self, kind: LvtKind) -> (acts: Vec<VlapicAction>)
        ensures
            final(self)@ == spec_mask_lvt(old(self)@, kind).0,
            acts@ == spec_mask_lvt(old(self)@, kind).1,
            final(self).isrv == old(self).isrv,
    {
        let v = self.page_lvt_get(kind) | APIC_LVT_M;
        self.page_lvt_set(kind, v);
        self.write_lvt(kind)
    }

    /// Masks every LVT entry.
    fn mask_lvts(&mut self) -> (acts: Vec<VlapicAction>)
        ensures
            final(self)@ == spec_mask_lvts(old(self)@).0,
            acts@ == spec_mask_lvts(old(self)@).1,
            final(self).isrv == old(self).isrv,
    {
        let mut acts = self.mask_lvt(LvtKind::Cmci);
        let mut a = self.mask_lvt(LvtKind::Timer);
        acts.append(&mut a);
        let mut a = self.mask_lvt(LvtKind::Thermal);
        acts.append(&mut a);
        let mut a = self.mask_lvt(LvtKind::Pmc);
        acts.append(&mut a);
        let mut a = self.mask_lvt(LvtKind::Lint0);
        acts.append(&mut a);
        let mut a = self.mask_lvt(LvtKind::Lint1);
        acts.append(&mut a);
        let mut a = self.mask_lvt(LvtKind::Error);
        acts.append(&mut a);
        acts
    }

    /// Accepts the SVR value that was just written to the page.
    fn write_svr(&mut self) -> (acts: Vec<VlapicAction>)
        ensures
            final(self)@ == spec_write_svr(old(self)@).0,
            acts@ == spec_write_svr(old(self)@).1,
            final(self).isrv == old(self).isrv,
    {
        let new = self.page.svr;
        let old_svr = self.svr_last;
        self.svr_last = new;
        if old_svr & SVR_APIC_ENABLED != 0 && new & SVR_APIC_ENABLED == 0 {
            let mut acts: Vec<VlapicAction> = Vec::new();
            acts.push(VlapicAction::TimerStop);
            let mut masked = self.mask_lvts();
            acts.append(&mut masked);
            acts
        } else if old_svr & SVR_APIC_ENABLED == 0 && new & SVR_APIC_ENABLED != 0 {
            let mut acts: Vec<VlapicAction> = Vec::new();
            acts.push(VlapicAction::TimerRestartIfPeriodic);
            proof {
                assert(acts@ =~= spec_write_svr(old(self)@).1);
            }
            acts
        } else {
            let acts: Vec<VlapicAction> = Vec::new();
            proof {
                assert(acts@ =~= spec_write_svr(old(self)@).1);
            }
            acts
        }
    }

    /// Whether logical destination `dest` addresses this APIC.
    fn is_dest_field_matched(&self, dest: u32) -> (r: Result<bool, AxError>)
        ensures
            r == spec_dest_field_matched(self@, dest),
    {
        let ldr = self.page.ldr;
        if self.is_x2apic_enabled() {
            return Ok(true);
        }
        match destination_model_of(self.page.dfr) {
            None => Err(AxError::InvalidData),
            Some(DestinationModel::Flat) => {
                let logical_id = ldr >> 24;
                let dest_logical_id = dest & 0xff;
                Ok(logical_id & dest_logical_id != 0)
            },
            Some(DestinationModel::Cluster) => {
                let logical_id = (ldr >> 24) & 0xf;
                let cluster_id = ldr >> 28;
                let dest_logical_id = dest & 0xf;
                let dest_cluster_id = (dest >> 4) & 0xf;
                Ok(cluster_id == dest_cluster_id && (logical_id & dest_logical_id) != 0)
            },
        }
    }

    /// Destination mask of an IPI without shorthand.
    fn calculate_dest_no_shorthand(&self, is_broadcast: bool, dest: u32, is_phys: bool, vm: VmVcpus) -> (r: Result<u64, AxError>)
        requires
            !is_broadcast && is_phys ==> dest < 64,
        ensures
            r == spec_dest_no_shorthand(self@, is_broadcast, dest, is_phys, vm),
    {
        if is_broadcast {
            Ok(vm.active_mask)
        } else if is_phys {
            Ok(1u64 << dest)
        } else {
            let candidates = vm.active_mask & low_bits_of(vm.vcpu_num);
            if candidates == 0 {
                Ok(0)
            } else {
                match self.is_dest_field_matched(dest) {
                    Err(e) => Err(e),
                    Ok(m) => Ok(if m { candidates } else { 0 }),
                }
            }
        }
    }

    /// Destination mask of an IPI.
    fn calculate_dest(
        &self,
        shorthand: DestinationShorthand,
        is_broadcast: bool,
        dest: u32,
        is_phys: bool,
        vm: VmVcpus,
    ) -> (r: Result<u64, AxError>)
        requires
            shorthand == DestinationShorthand::NoShorthand && !is_broadcast && is_phys ==> dest < 64,
            shorthand == DestinationShorthand::SelfOnly || shorthand == DestinationShorthand::AllExcludingSelf
                ==> self@.vapic_id < 64,
        ensures
            r == spec_calculate_dest(self@, shorthand, is_broadcast, dest, is_phys, vm),
    {
        match shorthand {
            DestinationShorthand::NoShorthand => self.calculate_dest_no_shorthand(is_broadcast, dest, is_phys, vm),
            DestinationShorthand::SelfOnly => Ok(1u64 << self.vapic_id),
            DestinationShorthand::AllIncludingSelf => Ok(vm.active_mask),
            DestinationShorthand::AllExcludingSelf => Ok(vm.active_mask & !(1u64 << self.vapic_id)),
        }
    }

    /// Sends the IPI described by the ICR in the page.
    fn write_icr(&mut self, vm: VmVcpus) -> (r: Result<Vec<VlapicAction>, AxError>)
        requires
            spec_icr_in_range(old(self)@, vm),
        ensures
            final(self)@ == spec_write_icr(old(self)@, vm).0,
            actions_match(r, spec_write_icr(old(self)@, vm).1),
            final(self).isrv == old(self).isrv,
    {
        let raw = self.page.icr_lo;
        proof {
            lemma_icr_fields_ignore_delivery_status(raw);
        }
        self.page.icr_lo = raw & !ICR_DELIVERY_STATUS;
        let icr_low = self.page.icr_lo;
        let (dest, is_broadcast) = if self.is_x2apic_enabled() {
            let dest = self.page.icr_hi;
            (dest, dest == X2APIC_BROADCAST_DEST_ID)
        } else {
            let dest = self.page.icr_hi >> 24;
            (dest, dest == XAPIC_BROADCAST_DEST_ID)
        };
        let vec = icr_low & 0xff;
        let mode = delivery_mode_of(icr_low);
        let is_phys = icr_low & ICR_DESTINATION_MODE != 0;
        let shorthand = shorthand_of(icr_low);
        if mode == DeliveryMode::Fixed && vec < 16 {
            self.esr_pending = self.esr_pending | ESR_SEND_ILLEGAL_VECTOR;
            self.esr_firing = 1;
            Ok(Vec::new())
        } else if (shorthand == DestinationShorthand::SelfOnly || shorthand == DestinationShorthand::AllIncludingSelf)
            && (mode == DeliveryMode::NMI || mode == DeliveryMode::INIT || mode == DeliveryMode::StartUp) {
            Ok(Vec::new())
        } else {
            let dmask = match self.calculate_dest(shorthand, is_broadcast, dest, is_phys, vm) {
                Ok(m) => m,
                Err(e) => {
                    return Err(e);
                },
            };
            let mut acts: Vec<VlapicAction> = Vec::new();
            let mut i: u32 = 0;
            while i < vm.vcpu_num
                invariant
                    i <= vm.vcpu_num,
                    vm.vcpu_num <= 64,
                    acts@ == spec_deliveries(dmask, mode, vec, icr_low, i),
                decreases vm.vcpu_num - i,
            {
                if dmask & (1u64 << i) != 0 {
                    match mode {
                        DeliveryMode::Fixed => {
                            acts.push(VlapicAction::SetIntr { vcpu: i, vector: vec, level: false });
                        },
                        DeliveryMode::NMI => {
                            acts.push(VlapicAction::InjectNmi { vcpu: i });
                        },
                        DeliveryMode::INIT | DeliveryMode::StartUp => {
                            acts.push(VlapicAction::InitSipi { vcpu: i, mode, icr_low });
                        },
                        _ => {},
                    }
                }
                proof {
                    let next = (i + 1) as u32;
                    assert(spec_deliveries(dmask, mode, vec, icr_low, next) == spec_deliveries(dmask, mode, vec, icr_low, i) + (if mask_has(dmask, i) {
                        spec_delivery(i, mode, vec, icr_low)
                    } else {
                        Seq::<VlapicAction>::empty()
                    }));
                    assert(acts@ =~= spec_deliveries(dmask, mode, vec, icr_low, next));
                }
                i = i + 1;
            }
            Ok(acts)
        }
    }

    /// Completes an EOI. Without an in-service vector, and none is ever
    /// recorded, there is nothing to complete.
    fn process_eoi(&mut self)
        requires
            old(self).wf(),
        ensures
            final(self)@ == old(self)@,
            final(self).wf(),
    {
        let vector = self.isrv;
        if vector == 0 {
            return;
        }
    }

    /// Keeps the logical APIC ID (bits 31:24) of the LDR just written.
    fn write_ldr(&mut self)
        ensures
            final(self)@ == (VlapicState { page: ApicPage { ldr: old(self)@.page.ldr & !LDR_RESERVED, ..old(self)@.page }, ..old(self)@ }),
            final(self).isrv == old(self).isrv,
    {
        self.page.ldr = self.page.ldr & !LDR_RESERVED;
    }

    /// Keeps the model of the DFR just written and sets its reserved bits.
    fn write_dfr(&mut self)
        ensures
            final(self)@ == (VlapicState { page: ApicPage { dfr: (old(self)@.page.dfr & APIC_DFR_MODEL_MASK) | APIC_DFR_RESERVED, ..old(self)@.page }, ..old(self)@ }),
            final(self).isrv == old(self).isrv,
    {
        self.page.dfr = (self.page.dfr & APIC_DFR_MODEL_MASK) | APIC_DFR_RESERVED;
    }

    /// Publishes the pending error bits in the ESR and clears them.
    fn write_esr(&mut self)
        ensures
            final(self)@ == (VlapicState { page: ApicPage { esr: old(self)@.esr_pending, ..old(self)@.page }, esr_pending: 0, ..old(self)@ }),
            final(self).isrv == old(self).isrv,
    {
        self.page.esr = self.esr_pending;
        self.esr_pending = 0;
    }

    /// Whether `handle_write` can take this write: an ICR write must stay
    /// within the 64 vCPUs that a destination mask names.
    pub fn write_supported(&self, offset: ApicRegOffset, val: usize, width: AccessWidth, vm: VmVcpus) -> (r: bool)
        ensures
            r == spec_write_supported(self@, offset, val, width, vm),
    {
        if offset != ApicRegOffset::ICRLow {
            return true;
        }
        let x2 = self.is_x2apic_enabled();
        let q = width == AccessWidth::Qword;
        if x2 != q {
            return true;
        }
        let hi = if x2 && q { ((val as u64) >> 32) as u32 } else { self.page.icr_hi };
        let lo = #[verifier::truncate] (val as u32);
        let dest = if x2 { hi } else { hi >> 24 };
        let is_broadcast = if x2 { dest == X2APIC_BROADCAST_DEST_ID } else { dest == XAPIC_BROADCAST_DEST_ID };
        let mode = delivery_mode_of(lo);
        let sh = shorthand_of(lo);
        let dropped = (mode == DeliveryMode::Fixed && lo & 0xff < 16) || ((sh == DestinationShorthand::SelfOnly
            || sh == DestinationShorthand::AllIncludingSelf) && (mode == DeliveryMode::NMI || mode
            == DeliveryMode::INIT || mode == DeliveryMode::StartUp));
        let self_ok = !(sh == DestinationShorthand::SelfOnly || sh == DestinationShorthand::AllExcludingSelf)
            || self.vapic_id < 64;
        let phys_ok = !(sh == DestinationShorthand::NoShorthand && !is_broadcast && lo & ICR_DESTINATION_MODE
            != 0) || dest < 64;
        dropped || (vm.vcpu_num <= 64 && self_ok && phys_ok)
    }

    /// Reads register `offset` with an access of `width`; `current_count`
    /// is the timer's current count. A 64-bit ICR read is refused unless the
    /// APIC is in x2APIC mode, and a 32-bit one while it is.
    pub fn handle_read(&self, offset: ApicRegOffset, width: AccessWidth, current_count: u32) -> (r: Result<usize, AxError>)
        requires
            offset.wf(),
        ensures
            r == result_as_usize(spec_handle_read(self@, offset, width, current_count)),
    {
        let value: u64 = match offset {
            ApicRegOffset::ID => self.page.id as u64,
            ApicRegOffset::Version => self.page.version as u64,
            ApicRegOffset::TPR => self.page.tpr as u64,
            ApicRegOffset::PPR => self.page.ppr as u64,
            ApicRegOffset::LDR => self.page.ldr as u64,
            ApicRegOffset::DFR => self.page.dfr as u64,
            ApicRegOffset::SIVR => self.page.svr as u64,
            ApicRegOffset::ISR(i) => self.page.isr[i as usize] as u64,
            ApicRegOffset::TMR(i) => self.page.tmr[i as usize] as u64,
            ApicRegOffset::IRR(i) => self.page.irr[i as usize] as u64,
            ApicRegOffset::ESR => self.page.esr as u64,
            ApicRegOffset::ICRLow => {
                let x2 = self.is_x2apic_enabled();
                let q = width == AccessWidth::Qword;
                if x2 && q {
                    ((self.page.icr_hi as u64) << 32) | (self.page.icr_lo as u64)
                } else if x2 != q {
                    return Err(AxError::InvalidInput);
                } else {
                    self.page.icr_lo as u64
                }
            },
            ApicRegOffset::ICRHi => self.page.icr_hi as u64,
            ApicRegOffset::LvtCMCI => self.lvt_last.lvt_cmci as u64,
            ApicRegOffset::LvtTimer => self.lvt_last.lvt_timer as u64,
            ApicRegOffset::LvtThermal => self.lvt_last.lvt_thermal as u64,
            ApicRegOffset::LvtPmc => self.lvt_last.lvt_perf_count as u64,
            ApicRegOffset::LvtLint0 => self.lvt_last.lvt_lint0 as u64,
            ApicRegOffset::LvtLint1 => self.lvt_last.lvt_lint1 as u64,
            ApicRegOffset::LvtErr => self.lvt_last.lvt_err as u64,
            ApicRegOffset::TimerInitCount => match timer_mode_of(self.page.lvt_timer) {
                Some(TimerMode::OneShot) => self.page.icr_timer as u64,
                Some(TimerMode::Periodic) => self.page.icr_timer as u64,
                _ => 0,
            },
            ApicRegOffset::TimerCurCount => current_count as u64,
            ApicRegOffset::TimerDivConf => self.page.dcr_timer as u64,
            _ => 0,
        };
        Ok(#[verifier::truncate] (value as usize))
    }

    /// Writes `val` to register `offset` with an access of `width`, given
    /// the vCPUs of the VM, and returns the timer and IPI work that the
    /// write leaves to the caller. Read-only and unknown registers are
    /// refused, and the ICR access width must match the APIC mode.
    pub fn handle_write(&mut self, offset: ApicRegOffset, val: usize, width: AccessWidth, vm: VmVcpus) -> (r: Result<Vec<VlapicAction>, AxError>)
        requires
            old(self).wf(),
            spec_write_supported(old(self)@, offset, val, width, vm),
        ensures
            final(self).wf(),
            final(self)@ == spec_handle_write(old(self)@, offset, val, width, vm).0,
            actions_match(r, spec_handle_write(old(self)@, offset, val, width, vm).1),
    {
        let data32 = #[verifier::truncate] (val as u32);
        match offset {
            ApicRegOffset::ID => Ok(Vec::new()),
            ApicRegOffset::EOI => {
                self.process_eoi();
                Ok(Vec::new())
            },
            ApicRegOffset::LDR => {
                self.page.ldr = data32;
                self.write_ldr();
                Ok(Vec::new())
            },
            ApicRegOffset::DFR => {
                self.page.dfr = data32;
                self.write_dfr();
                Ok(Vec::new())
            },
            ApicRegOffset::SIVR => {
                self.page.svr = data32;
                Ok(self.write_svr())
            },
            ApicRegOffset::ESR => {
                self.page.esr = data32;
                self.write_esr();
                Ok(Vec::new())
            },
            ApicRegOffset::ICRLow => {
                let x2 = self.is_x2apic_enabled();
                let q = width == AccessWidth::Qword;
                if x2 && q {
                    self.page.icr_hi = ((val as u64) >> 32) as u32;
                } else if x2 != q {
                    return Err(AxError::InvalidInput);
                }
                self.page.icr_lo = data32;
                self.write_icr(vm)
            },
            ApicRegOffset::TimerInitCount => match timer_mode_of(self.page.lvt_timer) {
                None => Err(AxError::InvalidData),
                Some(TimerMode::TSCDeadline) => Ok(Vec::new()),
                Some(_) => {
                    self.page.icr_timer = data32;
                    let mut acts: Vec<VlapicAction> = Vec::new();
                    acts.push(VlapicAction::TimerWriteInitialCount(self.page.icr_timer));
                    proof {
                        assert(acts@ =~= seq![VlapicAction::TimerWriteInitialCount(data32)]);
                    }
                    Ok(acts)
                },
            },
            ApicRegOffset::TimerDivConf => {
                self.page.dcr_timer = data32;
                let mut acts: Vec<VlapicAction> = Vec::new();
                acts.push(VlapicAction::TimerWriteDivideConfig(self.page.dcr_timer));
                proof {
                    assert(acts@ =~= seq![VlapicAction::TimerWriteDivideConfig(data32)]);
                }
                Ok(acts)
            },
            ApicRegOffset::SelfIPI => {
                if self.is_x2apic_enabled() {
                    self.page.self_ipi = data32;
                    let mut acts: Vec<VlapicAction> = Vec::new();
                    acts.push(VlapicAction::SelfIpi);
                    proof {
                        assert(acts@ =~= seq![VlapicAction::SelfIpi]);
                    }
                    Ok(acts)
                } else {
                    Err(AxError::InvalidInput)
                }
            },
            _ => match lvt_kind_of(offset) {
                Some(kind) => {
                    self.page_lvt_set(kind, data32);
                    Ok(self.write_lvt(kind))
                },
                None => Err(AxError::InvalidInput),
            },
        }
    }
}


proof fn lemma_timer_mode_field_bits(v: u32)
    by (bit_vector)
    ensures
        ((v >> 17u32) & 3 == 0) == (v & 0x6_0000u32 == 0),
        ((v >> 17u32) & 3 == 1) == (v & 0x6_0000u32 == 0x2_0000u32),
        ((v >> 17u32) & 3 == 2) == (v & 0x6_0000u32 == 0x4_0000u32),
        ((v >> 17u32) & 3 == 3) == (v & 0x6_0000u32 == 0x6_0000u32),
        (v >> 17u32) & 3 <= 3,
{
}

/// The timer mode of an LVT timer entry is its bits 18:17: 00 one-shot,
/// 01 periodic, 10 TSC-deadline; 11 is reserved and has no mode. No other
/// bit of the entry matters.
pub proof fn lemma_timer_mode_field(v: u32, other: u32)
    ensures
        (spec_timer_mode(v) == Some(TimerMode::OneShot)) == (v & 0x6_0000u32 == 0),
        (spec_timer_mode(v) == Some(TimerMode::Periodic)) == (v & 0x6_0000u32 == 0x2_0000u32),
        (spec_timer_mode(v) == Some(TimerMode::TSCDeadline)) == (v & 0x6_0000u32 == 0x4_0000u32),
        (spec_timer_mode(v) is None) == (v & 0x6_0000u32 == 0x6_0000u32),
        v & 0x6_0000u32 == other & 0x6_0000u32 ==> spec_timer_mode(v) == spec_timer_mode(other),
{
    lemma_timer_mode_field_bits(v);
    lemma_timer_mode_field_bits(other);
}

proof fn lemma_icr_field_bits(icr: u32, dfr: u32, ldr: u32, dest: u32)
    by (bit_vector)
    ensures
        ((icr >> 8u32) & 7 == 0) == (icr & 0x700u32 == 0x000u32),
        ((icr >> 8u32) & 7 == 1) == (icr & 0x700u32 == 0x100u32),
        ((icr >> 8u32) & 7 == 2) == (icr & 0x700u32 == 0x200u32),
        ((icr >> 8u32) & 7 == 3) == (icr & 0x700u32 == 0x300u32),
        ((icr >> 8u32) & 7 == 4) == (icr & 0x700u32 == 0x400u32),
        ((icr >> 8u32) & 7 == 5) == (icr & 0x700u32 == 0x500u32),
        ((icr >> 8u32) & 7 == 6) == (icr & 0x700u32 == 0x600u32),
        ((icr >> 8u32) & 7 == 7) == (icr & 0x700u32 == 0x700u32),
        ((icr >> 18u32) & 3 == 0) == (icr & 0xc_0000u32 == 0x0_0000u32),
        ((icr >> 18u32) & 3 == 1) == (icr & 0xc_0000u32 == 0x4_0000u32),
        ((icr >> 18u32) & 3 == 2) == (icr & 0xc_0000u32 == 0x8_0000u32),
        ((icr >> 18u32) & 3 == 3) == (icr & 0xc_0000u32 == 0xc_0000u32),
        (dfr >> 28u32 == 0xf) == (dfr >= 0xf000_0000u32),
        (dfr >> 28u32 == 0) == (dfr < 0x1000_0000u32),
        (icr >> 8u32) & 7 <= 7,
        (icr >> 18u32) & 3 <= 3,
        ((ldr >> 24u32) & (dest & 0xff) != 0) == ((dest & 0x01 != 0 && ldr & 0x0100_0000 != 0) || (dest & 0x02 != 0 && ldr
            & 0x0200_0000 != 0) || (dest & 0x04 != 0 && ldr & 0x0400_0000 != 0) || (dest & 0x08 != 0 && ldr & 0x0800_0000 != 0)
            || (dest & 0x10 != 0 && ldr & 0x1000_0000 != 0) || (dest & 0x20 != 0 && ldr & 0x2000_0000 != 0) || (dest & 0x40
            != 0 && ldr & 0x4000_0000 != 0) || (dest & 0x80 != 0 && ldr & 0x8000_0000 != 0)),
{
}

/// The fields of an IPI command and of the destination format register:
/// the delivery mode is ICR bits 10:8 (000 fixed, 001 lowest priority, 010
/// SMI, 100 NMI, 101 INIT, 110 start-up; 011 and 111 reserved), the
/// destination shorthand ICR bits 19:18 (00 none, 01 self, 10 all
/// including self, 11 all excluding self), and the destination model is
/// flat when DFR bits 31:28 are all set, cluster when they are all clear,
/// and undefined otherwise.
pub proof fn lemma_ipi_command_fields(icr: u32, dfr: u32)
    ensures
        (spec_delivery_mode(icr) == DeliveryMode::Fixed) == (icr & 0x700u32 == 0x000u32),
        (spec_delivery_mode(icr) == DeliveryMode::LowestPriority) == (icr & 0x700u32 == 0x100u32),
        (spec_delivery_mode(icr) == DeliveryMode::SMI) == (icr & 0x700u32 == 0x200u32),
        (spec_delivery_mode(icr) == DeliveryMode::Reserved011) == (icr & 0x700u32 == 0x300u32),
        (spec_delivery_mode(icr) == DeliveryMode::NMI) == (icr & 0x700u32 == 0x400u32),
        (spec_delivery_mode(icr) == DeliveryMode::INIT) == (icr & 0x700u32 == 0x500u32),
        (spec_delivery_mode(icr) == DeliveryMode::StartUp) == (icr & 0x700u32 == 0x600u32),
        (spec_delivery_mode(icr) == DeliveryMode::Reserved111) == (icr & 0x700u32 == 0x700u32),
        (spec_shorthand(icr) == DestinationShorthand::NoShorthand) == (icr & 0xc_0000u32 == 0),
        (spec_shorthand(icr) == DestinationShorthand::SelfOnly) == (icr & 0xc_0000u32 == 0x4_0000u32),
        (spec_shorthand(icr) == DestinationShorthand::AllIncludingSelf) == (icr & 0xc_0000u32 == 0x8_0000u32),
        (spec_shorthand(icr) == DestinationShorthand::AllExcludingSelf) == (icr & 0xc_0000u32 == 0xc_0000u32),
        (spec_destination_model(dfr) == Some(DestinationModel::Flat)) == (dfr >= 0xf000_0000u32),
        (spec_destination_model(dfr) == Some(DestinationModel::Cluster)) == (dfr < 0x1000_0000u32),
{
    lemma_icr_field_bits(icr, dfr, 0, 0);
}

/// Whether logical destination `dest` names, in its low byte, one of the
/// logical ids set in bits 31..24 of `ldr`: bit `k` of `dest` and bit
/// `24 + k` of `ldr` for some `k < 8`.
pub open spec fn names_flat_member(ldr: u32, dest: u32) -> bool {
    ||| dest & 0x01 != 0 && ldr & 0x0100_0000 != 0
    ||| dest & 0x02 != 0 && ldr & 0x0200_0000 != 0
    ||| dest & 0x04 != 0 && ldr & 0x0400_0000 != 0
    ||| dest & 0x08 != 0 && ldr & 0x0800_0000 != 0
    ||| dest & 0x10 != 0 && ldr & 0x1000_0000 != 0
    ||| dest & 0x20 != 0 && ldr & 0x2000_0000 != 0
    ||| dest & 0x40 != 0 && ldr & 0x4000_0000 != 0
    ||| dest & 0x80 != 0 && ldr & 0x8000_0000 != 0
}

/// Logical destinations in the xAPIC flat model: the destination's low
/// byte is a set of logical ids, and it matches exactly when it shares one
/// with the APIC's logical id (LDR bits 31..24). In x2APIC mode every
/// logical destination matches here.
pub proof fn lemma_flat_destination_match(s: VlapicState, dest: u32)
    ensures
        !spec_x2apic_enabled(s.apic_base) && spec_destination_model(s.page.dfr) == Some(DestinationModel::Flat)
            ==> spec_dest_field_matched(s, dest) == Ok::<bool, AxError>(names_flat_member(s.page.ldr, dest)),
        spec_x2apic_enabled(s.apic_base) ==> spec_dest_field_matched(s, dest) == Ok::<bool, AxError>(true),
        !spec_x2apic_enabled(s.apic_base) && spec_destination_model(s.page.dfr) is None ==> spec_dest_field_matched(s, dest)
            == Err::<bool, AxError>(AxError::InvalidData),
{
    lemma_icr_field_bits(0, 0, s.page.ldr, dest);
}

/// Whether logical destination `dest` names, in its low nibble, one of the
/// members set in bits 27..24 of `ldr`: bit `k` of `dest` and bit `24 + k`
/// of `ldr` for some `k < 4`.
pub open spec fn names_cluster_member(ldr: u32, dest: u32) -> bool {
    ||| dest & 1 != 0 && ldr & 0x0100_0000 != 0
    ||| dest & 2 != 0 && ldr & 0x0200_0000 != 0
    ||| dest & 4 != 0 && ldr & 0x0400_0000 != 0
    ||| dest & 8 != 0 && ldr & 0x0800_0000 != 0
}

proof fn lemma_cluster_member_bits(ldr: u32, dest: u32)
    by (bit_vector)
    ensures
        (((ldr >> 24u32) & 0xf) & (dest & 0xf) != 0) == ((dest & 1 != 0 && ldr & 0x0100_0000 != 0) || (dest & 2 != 0 && ldr
            & 0x0200_0000 != 0) || (dest & 4 != 0 && ldr & 0x0400_0000 != 0) || (dest & 8 != 0 && ldr & 0x0800_0000 != 0)),
{
}

/// Logical destinations in the xAPIC cluster model: the destination's bits
/// 7..4 name a cluster and bits 3..0 its members. A destination naming
/// another cluster than the APIC's own (LDR bits 31..28) never matches; one
/// naming the APIC's cluster matches exactly when it names one of the
/// APIC's members (LDR bits 27..24).
pub proof fn lemma_cluster_destination_match(s: VlapicState, dest: u32)
    requires
        !spec_x2apic_enabled(s.apic_base),
        spec_destination_model(s.page.dfr) == Some(DestinationModel::Cluster),
    ensures
        (dest >> 4u32) & 0xf != s.page.ldr >> 28u32 ==> spec_dest_field_matched(s, dest) == Ok::<bool, AxError>(false),
        (dest >> 4u32) & 0xf == s.page.ldr >> 28u32 ==> spec_dest_field_matched(s, dest) == Ok::<bool, AxError>(
            names_cluster_member(s.page.ldr, dest),
        ),
{
    lemma_cluster_member_bits(s.page.ldr, dest);
}

/// Reading an LVT entry returns the value that the last write to it left:
/// the written value cut down to the entry's fields, and masked while the
/// APIC is software-enabled.
pub proof fn lemma_lvt_read_after_write(
    s: VlapicState,
    offset: ApicRegOffset,
    val: usize,
    width: AccessWidth,
    width2: AccessWidth,
    vm: VmVcpus,
    current_count: u32,
)
    requires
        spec_lvt_kind(offset) is Some,
    ensures
        ({
            let kind = spec_lvt_kind(offset)->0;
            let forced = if s.page.svr & SVR_APIC_ENABLED != 0 { (val as u32) | APIC_LVT_M } else { val as u32 };
            &&& spec_handle_write(s, offset, val, width, vm).1 is Ok
            &&& spec_handle_read(spec_handle_write(s, offset, val, width, vm).0, offset, width2, current_count)
                == Ok::<u64, AxError>((forced & spec_lvt_write_mask(kind)) as u64)
        }),
{
}

/// While the APIC is software-enabled, every LVT entry that a write
/// accepts is masked.
pub proof fn lemma_lvt_masked_while_enabled(s: VlapicState, offset: ApicRegOffset, val: usize, width: AccessWidth, vm: VmVcpus)
    requires
        spec_lvt_kind(offset) is Some,
        s.page.svr & SVR_APIC_ENABLED != 0,
    ensures
        table_lvt(spec_handle_write(s, offset, val, width, vm).0.lvt_last, spec_lvt_kind(offset)->0) & APIC_LVT_M != 0,
{
    lemma_accepted_lvt_is_masked(val as u32, spec_lvt_kind(offset)->0);
}

/// Disabling the APIC in software masks all seven LVT entries, and the
/// first piece of work handed back stops the timer.
pub proof fn lemma_software_disable_masks_all_lvts(s: VlapicState, val: usize, width: AccessWidth, vm: VmVcpus)
    requires
        s.svr_last & SVR_APIC_ENABLED != 0,
        (val as u32) & SVR_APIC_ENABLED == 0,
    ensures
        ({
            let r = spec_handle_write(s, ApicRegOffset::SIVR, val, width, vm);
            &&& r.1 is Ok
            &&& r.1->Ok_0.len() > 0 && r.1->Ok_0[0] == VlapicAction::TimerStop
            &&& r.0.lvt_last.lvt_cmci & APIC_LVT_M != 0
            &&& r.0.lvt_last.lvt_timer & APIC_LVT_M != 0
            &&& r.0.lvt_last.lvt_thermal & APIC_LVT_M != 0
            &&& r.0.lvt_last.lvt_perf_count & APIC_LVT_M != 0
            &&& r.0.lvt_last.lvt_lint0 & APIC_LVT_M != 0
            &&& r.0.lvt_last.lvt_lint1 & APIC_LVT_M != 0
            &&& r.0.lvt_last.lvt_err & APIC_LVT_M != 0
        }),
{
    let s1 = VlapicState { svr_last: val as u32, page: ApicPage { svr: val as u32, ..s.page }, ..s };
    assert forall|x: u32, kind: LvtKind| #[trigger] ((x | APIC_LVT_M) & spec_lvt_write_mask(kind)) & APIC_LVT_M != 0 by {
        lemma_accepted_lvt_is_masked(x, kind);
    }
    let m = spec_mask_lvts(s1);
    assert((seq![VlapicAction::TimerStop] + m.1)[0] == VlapicAction::TimerStop);
}

/// The logical destination register keeps only the logical APIC ID
/// (bits 31:24) of what is written, and reads back as that.
pub proof fn lemma_ldr_read_after_write(s: VlapicState, val: usize, width: AccessWidth, width2: AccessWidth, vm: VmVcpus, current_count: u32)
    ensures
        spec_handle_read(spec_handle_write(s, ApicRegOffset::LDR, val, width, vm).0, ApicRegOffset::LDR, width2, current_count)
            == Ok::<u64, AxError>(((val as u32) & 0xff00_0000u32) as u64),
{
    let v = val as u32;
    assert(v & !0x00ff_ffffu32 == v & 0xff00_0000u32) by (bit_vector);
}

/// The destination format register reads back with its model field as
/// written and all reserved bits set.
pub proof fn lemma_dfr_reserved_bits_read_as_one(s: VlapicState, val: usize, width: AccessWidth, width2: AccessWidth, vm: VmVcpus, current_count: u32)
    ensures
        spec_handle_read(spec_handle_write(s, ApicRegOffset::DFR, val, width, vm).0, ApicRegOffset::DFR, width2, current_count)
            == Ok::<u64, AxError>(((val as u32) | 0x0fff_ffffu32) as u64),
{
    let v = val as u32;
    assert((v & 0xf000_0000u32) | 0x0fff_ffffu32 == v | 0x0fff_ffffu32) by (bit_vector);
}

/// The APIC ID is read-only: a write to it changes nothing.
pub proof fn lemma_id_is_read_only(s: VlapicState, val: usize, width: AccessWidth, vm: VmVcpus)
    ensures
        spec_handle_write(s, ApicRegOffset::ID, val, width, vm) == (s, Ok::<Seq<VlapicAction>, AxError>(Seq::empty())),
{
}

/// A fixed IPI with a vector below 16 is not sent; the next ESR write
/// publishes the "send illegal vector" error, and the one after that finds
/// no error pending.
pub proof fn lemma_illegal_vector_reported_once(
    s: VlapicState,
    icr: usize,
    width: AccessWidth,
    esr_val1: usize,
    esr_val2: usize,
    vm: VmVcpus,
    current_count: u32,
)
    requires
        !spec_x2apic_enabled(s.apic_base),
        width != AccessWidth::Qword,
        spec_delivery_mode(icr as u32) == DeliveryMode::Fixed,
        (icr as u32) & 0xff < 16,
    ensures
        ({
            let w1 = spec_handle_write(s, ApicRegOffset::ICRLow, icr, width, vm);
            let w2 = spec_handle_write(w1.0, ApicRegOffset::ESR, esr_val1, width, vm);
            let w3 = spec_handle_write(w2.0, ApicRegOffset::ESR, esr_val2, width, vm);
            &&& w1.1 == Ok::<Seq<VlapicAction>, AxError>(Seq::empty())
            &&& spec_handle_read(w2.0, ApicRegOffset::ESR, width, current_count) matches Ok(v) && v & 0x20 != 0
            &&& spec_handle_read(w3.0, ApicRegOffset::ESR, width, current_count) == Ok::<u64, AxError>(0)
        }),
{
    let lo = icr as u32;
    lemma_icr_fields_ignore_delivery_status(lo);
    assert forall|e: u32| #[trigger] ((e | 0x20u32) as u64) & 0x20 != 0 by {
        assert(((e | 0x20u32) as u64) & 0x20u64 != 0) by (bit_vector);
    }
}


/// Clearing the delivery-status bit of a low ICR word leaves its vector,
/// delivery mode, shorthand and destination mode as they were.
proof fn lemma_icr_fields_ignore_delivery_status(raw: u32)
    ensures
        (raw & !0x1000u32) & 0xff == raw & 0xff,
        ((raw & !0x1000u32) >> 8u32) & 7 == (raw >> 8u32) & 7,
        ((raw & !0x1000u32) >> 18u32) & 3 == (raw >> 18u32) & 3,
        (raw & !0x1000u32) & 0x800 == raw & 0x800,
{
    assert((raw & !0x1000u32) & 0xff == raw & 0xff && ((raw & !0x1000u32) >> 8u32) & 7 == (raw >> 8u32) & 7
        && ((raw & !0x1000u32) >> 18u32) & 3 == (raw >> 18u32) & 3 && (raw & !0x1000u32) & 0x800 == raw
        & 0x800) by (bit_vector);
}

/// Every LVT field mask keeps the mask bit, so an entry with the mask bit
/// set stays masked when it is accepted.
proof fn lemma_accepted_lvt_is_masked(x: u32, kind: LvtKind)
    ensures
        spec_lvt_write_mask(kind) & APIC_LVT_M != 0,
        ((x | APIC_LVT_M) & spec_lvt_write_mask(kind)) & APIC_LVT_M != 0,
{
    assert((0x1_0000u32 | 0x1000u32 | 0xffu32 | 0x6_0000u32) & 0x1_0000u32 != 0 && (0x1_0000u32 | 0x1000u32
        | 0xffu32) & 0x1_0000u32 != 0 && (0x1_0000u32 | 0x1000u32 | 0xffu32 | 0x8000u32 | 0x4000u32
        | 0x2000u32 | 0x700u32) & 0x1_0000u32 != 0 && (0x1_0000u32 | 0x1000u32 | 0xffu32 | 0x700u32)
        & 0x1_0000u32 != 0) by (bit_vector);
    let m = spec_lvt_write_mask(kind);
    assert(m & 0x1_0000u32 != 0 ==> ((x | 0x1_0000u32) & m) & 0x1_0000u32 != 0) by (bit_vector);
}

} // verus!
