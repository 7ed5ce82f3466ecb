use tgoskits::errno::AxError;
use tgoskits::vlapic::{
    AccessWidth, ApicRegOffset, DeliveryMode, VirtualApicRegs, VlapicAction, VmVcpus, extract_index_and_bitpos_u32,
    prio, processor_priority,
};

fn vm(active_mask: u64, vcpu_num: u32) -> VmVcpus {
    VmVcpus { active_mask, vcpu_num }
}

fn read(apic: &VirtualApicRegs, offset: ApicRegOffset) -> usize {
    apic.handle_read(offset, AccessWidth::Dword, 0).unwrap()
}

fn write(apic: &mut VirtualApicRegs, offset: ApicRegOffset, val: usize, v: VmVcpus) -> Result<Vec<VlapicAction>, AxError> {
    assert!(apic.write_supported(offset, val, AccessWidth::Dword, v));
    apic.handle_write(offset, val, AccessWidth::Dword, v)
}

#[test]
fn new_apic_has_masked_lvts_and_zeroed_page() {
    let apic = VirtualApicRegs::new(3);
    assert_eq!(read(&apic, ApicRegOffset::LvtTimer), 0x1_0000);
    assert_eq!(read(&apic, ApicRegOffset::LvtErr), 0x1_0000);
    assert_eq!(read(&apic, ApicRegOffset::SIVR), 0);
    assert_eq!(read(&apic, ApicRegOffset::ISR(7)), 0);
    assert_eq!(apic.apic_base(), 0);
    assert!(!apic.is_x2apic_enabled());
    assert!(!apic.is_xapic_enabled());
}

#[test]
fn lvt_write_keeps_only_the_entry_fields() {
    let mut apic = VirtualApicRegs::new(0);
    // Error LVT keeps mask, delivery status and vector only.
    assert_eq!(write(&mut apic, ApicRegOffset::LvtErr, 0xffff_ffff, vm(1, 1)), Ok(vec![]));
    assert_eq!(read(&apic, ApicRegOffset::LvtErr), 0x1_10ff);
    // Timer LVT also keeps the timer mode, and the timer is told.
    assert_eq!(
        write(&mut apic, ApicRegOffset::LvtTimer, 0x2_0030, vm(1, 1)),
        Ok(vec![VlapicAction::TimerWriteLvt(0x2_0030)])
    );
    assert_eq!(read(&apic, ApicRegOffset::LvtTimer), 0x2_0030);
    // LINT0 keeps trigger, remote IRR, polarity and delivery mode.
    assert_eq!(write(&mut apic, ApicRegOffset::LvtLint0, 0xfff_f7ff, vm(1, 1)), Ok(vec![]));
    assert_eq!(read(&apic, ApicRegOffset::LvtLint0), 0x1_f7ff);
}

#[test]
fn lvt_writes_are_masked_while_software_enabled() {
    let mut apic = VirtualApicRegs::new(0);
    assert_eq!(
        write(&mut apic, ApicRegOffset::SIVR, 0x1ff, vm(1, 1)),
        Ok(vec![VlapicAction::TimerRestartIfPeriodic])
    );
    assert_eq!(write(&mut apic, ApicRegOffset::LvtCMCI, 0x30, vm(1, 1)), Ok(vec![]));
    assert_eq!(read(&apic, ApicRegOffset::LvtCMCI), 0x1_0030);
}

#[test]
fn software_disable_stops_timer_and_masks_all_lvts() {
    let mut apic = VirtualApicRegs::new(0);
    write(&mut apic, ApicRegOffset::SIVR, 0x1ff, vm(1, 1)).unwrap();
    let acts = write(&mut apic, ApicRegOffset::SIVR, 0xff, vm(1, 1)).unwrap();
    assert_eq!(acts[0], VlapicAction::TimerStop);
    assert_eq!(acts.len(), 2);
    assert!(matches!(acts[1], VlapicAction::TimerWriteLvt(v) if v & 0x1_0000 != 0));
    for off in [
        ApicRegOffset::LvtCMCI,
        ApicRegOffset::LvtTimer,
        ApicRegOffset::LvtThermal,
        ApicRegOffset::LvtPmc,
        ApicRegOffset::LvtLint0,
        ApicRegOffset::LvtLint1,
        ApicRegOffset::LvtErr,
    ] {
        assert_ne!(read(&apic, off) & 0x1_0000, 0);
    }
}

#[test]
fn ldr_and_dfr_keep_their_defined_fields() {
    let mut apic = VirtualApicRegs::new(0);
    write(&mut apic, ApicRegOffset::LDR, 0x1234_5678, vm(1, 1)).unwrap();
    assert_eq!(read(&apic, ApicRegOffset::LDR), 0x1200_0000);
    write(&mut apic, ApicRegOffset::DFR, 0x0000_0000, vm(1, 1)).unwrap();
    assert_eq!(read(&apic, ApicRegOffset::DFR), 0x0fff_ffff);
    write(&mut apic, ApicRegOffset::DFR, 0xf000_0000, vm(1, 1)).unwrap();
    assert_eq!(read(&apic, ApicRegOffset::DFR), 0xffff_ffff);
}

#[test]
fn apic_id_is_read_only() {
    let mut apic = VirtualApicRegs::new(5);
    assert_eq!(write(&mut apic, ApicRegOffset::ID, 0x0700_0000, vm(1, 1)), Ok(vec![]));
    assert_eq!(read(&apic, ApicRegOffset::ID), 0);
}

#[test]
fn unsupported_writes_are_invalid_input() {
    let mut apic = VirtualApicRegs::new(0);
    for off in [ApicRegOffset::TPR, ApicRegOffset::ICRHi, ApicRegOffset::TimerCurCount, ApicRegOffset::ISR(0)] {
        assert_eq!(write(&mut apic, off, 1, vm(1, 1)), Err(AxError::InvalidInput));
    }
    // A self IPI needs x2APIC mode.
    assert_eq!(write(&mut apic, ApicRegOffset::SelfIPI, 0x40, vm(1, 1)), Err(AxError::InvalidInput));
}

#[test]
fn qword_icr_access_is_refused_in_xapic_mode() {
    let mut apic = VirtualApicRegs::new(0);
    assert_eq!(apic.handle_read(ApicRegOffset::ICRLow, AccessWidth::Qword, 0), Err(AxError::InvalidInput));
    assert_eq!(
        apic.handle_write(ApicRegOffset::ICRLow, 0x4030, AccessWidth::Qword, vm(1, 1)),
        Err(AxError::InvalidInput)
    );
}

#[test]
fn illegal_vector_ipi_is_reported_once_through_esr() {
    let mut apic = VirtualApicRegs::new(0);
    // Fixed IPI with vector 5 is not sent.
    assert_eq!(write(&mut apic, ApicRegOffset::ICRLow, 0x0000_1005, vm(1, 1)), Ok(vec![]));
    // The delivery-status bit reads as idle.
    assert_eq!(read(&apic, ApicRegOffset::ICRLow), 0x0000_0005);
    write(&mut apic, ApicRegOffset::ESR, 0, vm(1, 1)).unwrap();
    assert_eq!(read(&apic, ApicRegOffset::ESR), 0x20);
    write(&mut apic, ApicRegOffset::ESR, 0, vm(1, 1)).unwrap();
    assert_eq!(read(&apic, ApicRegOffset::ESR), 0);
}

#[test]
fn fixed_ipi_to_all_reaches_every_active_vcpu() {
    let mut apic = VirtualApicRegs::new(0);
    // Shorthand "all including self", fixed mode, vector 0x40.
    let acts = write(&mut apic, ApicRegOffset::ICRLow, 0x0008_0040, vm(0b101, 3)).unwrap();
    assert_eq!(
        acts,
        vec![
            VlapicAction::SetIntr { vcpu: 0, vector: 0x40, level: false },
            VlapicAction::SetIntr { vcpu: 2, vector: 0x40, level: false },
        ]
    );
}

#[test]
fn ipi_to_all_but_self_skips_the_sender() {
    let mut apic = VirtualApicRegs::new(1);
    // Shorthand "all excluding self", NMI.
    let acts = write(&mut apic, ApicRegOffset::ICRLow, 0x000c_0400, vm(0b111, 3)).unwrap();
    assert_eq!(acts, vec![VlapicAction::InjectNmi { vcpu: 0 }, VlapicAction::InjectNmi { vcpu: 2 }]);
}

#[test]
fn init_to_self_is_dropped() {
    let mut apic = VirtualApicRegs::new(0);
    // Shorthand "self", INIT.
    assert_eq!(write(&mut apic, ApicRegOffset::ICRLow, 0x0004_0500, vm(1, 1)), Ok(vec![]));
}

#[test]
fn startup_ipi_addressed_by_destination_bit() {
    let mut apic = VirtualApicRegs::new(0);
    // Destination-mode bit set (taken as a physical destination), start-up
    // mode, vector 0x10; the high word is zero: destination vCPU 0.
    let acts = write(&mut apic, ApicRegOffset::ICRLow, 0x0000_0e10, vm(0b1111, 4));
    assert_eq!(
        acts,
        Ok(vec![VlapicAction::InitSipi { vcpu: 0, mode: DeliveryMode::StartUp, icr_low: 0x0000_0e10 }])
    );
}

#[test]
fn logical_ipi_with_unknown_destination_model_is_invalid_data() {
    let mut apic = VirtualApicRegs::new(0);
    // DFR model 0x5 is neither flat nor cluster.
    write(&mut apic, ApicRegOffset::DFR, 0x5000_0000, vm(1, 1)).unwrap();
    assert_eq!(write(&mut apic, ApicRegOffset::ICRLow, 0x0000_0040, vm(1, 1)), Err(AxError::InvalidData));
}

#[test]
fn logical_ipi_in_flat_model_matches_logical_id() {
    let mut apic = VirtualApicRegs::new(0);
    write(&mut apic, ApicRegOffset::DFR, 0xf000_0000, vm(1, 2)).unwrap();
    write(&mut apic, ApicRegOffset::LDR, 0x0100_0000, vm(1, 2)).unwrap();
    // Destination logical ID 0 in the high word does not match logical ID 1.
    assert_eq!(write(&mut apic, ApicRegOffset::ICRLow, 0x0000_0040, vm(0b11, 2)), Ok(vec![]));
}

#[test]
fn timer_registers_go_to_the_timer() {
    let mut apic = VirtualApicRegs::new(0);
    assert_eq!(
        write(&mut apic, ApicRegOffset::TimerInitCount, 1000, vm(1, 1)),
        Ok(vec![VlapicAction::TimerWriteInitialCount(1000)])
    );
    assert_eq!(read(&apic, ApicRegOffset::TimerInitCount), 1000);
    assert_eq!(
        write(&mut apic, ApicRegOffset::TimerDivConf, 0xb, vm(1, 1)),
        Ok(vec![VlapicAction::TimerWriteDivideConfig(0xb)])
    );
    assert_eq!(read(&apic, ApicRegOffset::TimerDivConf), 0xb);
    assert_eq!(apic.handle_read(ApicRegOffset::TimerCurCount, AccessWidth::Dword, 77), Ok(77));
    // TSC-deadline mode ignores the initial count and reads it as zero.
    write(&mut apic, ApicRegOffset::LvtTimer, 0x4_0000, vm(1, 1)).unwrap();
    assert_eq!(write(&mut apic, ApicRegOffset::TimerInitCount, 5, vm(1, 1)), Ok(vec![]));
    assert_eq!(read(&apic, ApicRegOffset::TimerInitCount), 0);
    // The reserved timer mode is invalid data.
    write(&mut apic, ApicRegOffset::LvtTimer, 0x6_0000, vm(1, 1)).unwrap();
    assert_eq!(write(&mut apic, ApicRegOffset::TimerInitCount, 5, vm(1, 1)), Err(AxError::InvalidData));
    assert_eq!(apic.timer_mode(), Err(AxError::InvalidData));
}

#[test]
fn eoi_without_in_service_vector_changes_nothing() {
    let mut apic = VirtualApicRegs::new(0);
    assert_eq!(write(&mut apic, ApicRegOffset::EOI, 0, vm(1, 1)), Ok(vec![]));
    assert_eq!(read(&apic, ApicRegOffset::PPR), 0);
}

#[test]
fn ipi_beyond_sixty_four_vcpus_is_not_supported() {
    let apic = VirtualApicRegs::new(0);
    assert!(!apic.write_supported(ApicRegOffset::ICRLow, 0x0008_0040, AccessWidth::Dword, vm(1, 65)));
    assert!(apic.write_supported(ApicRegOffset::ICRLow, 0x0000_0005, AccessWidth::Dword, vm(1, 65)));
}

#[test]
fn vector_register_index_and_priority_helpers() {
    assert_eq!(extract_index_and_bitpos_u32(0x45), (2, 5));
    assert_eq!(prio(0xa7), 0xa);
    assert_eq!(processor_priority(0x30, 0x51), 0x50);
    assert_eq!(processor_priority(0x62, 0x51), 0x62);
}
