use tgoskits::cvsd::{
    BusWidth, CardInitPreference, CvsdProbeError, DEVICE_NAME, card_init_error, card_init_preference, cv181x_bus_width,
    cv181x_syscon, cv181x_syscon_map_size, cvsd_block_config, cvsd_fdt_policy, fdt_u32, is_absent_card_init_error,
};
use tgoskits::sdmmc::{Error, ErrorContext, Phase};
use tgoskits::sdmmc_rdif::{BLOCK_SIZE, fifo_config, queue_limits};

#[test]
fn command_timeout_during_card_init_is_absent_card() {
    let err = Error::Timeout(ErrorContext::for_cmd(Phase::ResponseWait, 1));

    assert!(is_absent_card_init_error(err));
}

#[test]
fn data_timeout_after_card_init_is_not_absent_card() {
    let err = Error::Timeout(ErrorContext::for_cmd(Phase::DataRead, 17));

    assert!(!is_absent_card_init_error(err));
}

#[test]
fn cvsd_block_io_uses_fifo_polling_config() {
    let config = cvsd_block_config(8);
    let limits = queue_limits(&config, config.dma_mask);

    assert_eq!(config.name, DEVICE_NAME);
    assert_eq!(config.capacity_blocks, 8);
    assert!(!config.uses_dma());
    assert!(!config.irq_driven);
    assert_eq!(limits.max_blocks_per_request, 1);
    assert_eq!(limits.max_segment_size, BLOCK_SIZE);
}

#[test]
fn fifo_config_is_irq_driven_without_dma() {
    let config = fifo_config("cvsd", 16, true);
    let limits = queue_limits(&config, config.dma_mask);

    assert_eq!(config.name, "cvsd");
    assert_eq!(config.capacity_blocks, 16);
    assert!(config.irq_driven);
    assert!(!config.uses_dma());
    assert_eq!(limits.max_blocks_per_request, 1);
    assert_eq!(limits.max_segment_size, BLOCK_SIZE);
}

#[test]
fn card_init_failures_map_to_probe_outcomes() {
    assert_eq!(card_init_error(Error::NoCard), CvsdProbeError::NotMatch);
    let data = Error::Timeout(ErrorContext::for_cmd(Phase::DataRead, 17));
    assert_eq!(card_init_error(data), CvsdProbeError::InitFailed(data));
}

#[test]
fn init_order_follows_the_device_tree_policy() {
    assert_eq!(card_init_preference(cvsd_fdt_policy(false, false, false, false)), CardInitPreference::SdFirst);
    assert_eq!(card_init_preference(cvsd_fdt_policy(false, false, false, true)), CardInitPreference::MmcFirst);
    assert_eq!(card_init_preference(cvsd_fdt_policy(true, true, false, false)), CardInitPreference::SdOnly);
    assert_eq!(card_init_preference(cvsd_fdt_policy(false, true, false, false)), CardInitPreference::SdOnly);
}

#[test]
fn syscon_region_and_bus_width_from_the_device_tree() {
    let regs = [None, Some((0x1000, Some(0x100))), Some((0x0300_0000, None))];
    assert_eq!(cv181x_syscon(&regs, 0x0300_0000, 0x1000), Ok((0x0300_0000, 0x8000)));
    assert_eq!(cv181x_syscon(&regs, 0x0400_0000, 0x1000), Err(CvsdProbeError::SysconNotFound));
    assert_eq!(
        cv181x_syscon_map_size(Some(0x100), 0x1000),
        Err(CvsdProbeError::SysconTooSmall { size: 0x100, required: 0x1000 })
    );
    assert_eq!(cv181x_bus_width(Some(1)), BusWidth::Bit1);
    assert_eq!(cv181x_bus_width(Some(8)), BusWidth::Bit4);
    assert_eq!(cv181x_bus_width(None), BusWidth::Bit4);
    assert_eq!(fdt_u32(None, 400_000), 400_000);
}
