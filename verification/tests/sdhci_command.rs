use tgoskits::sdhci::{Event, PendingData, Sdhci, transfer_mode};
use tgoskits::sdhci_regs::{
    ERROR_INT_DATA_TIMEOUT, NORMAL_INT_BUFFER_READ_READY, NORMAL_INT_BUFFER_WRITE_READY,
    NORMAL_INT_CMD_COMPLETE, NORMAL_INT_ERROR, NORMAL_INT_XFER_COMPLETE, REG_NORMAL_INT_STATUS,
    XFER_MODE_AUTO_CMD12, XFER_MODE_MULTI_BLOCK,
};
use tgoskits::sdmmc::{DataDirection, cmd17};

#[test]
fn multi_block_transfer_mode_leaves_stop_command_to_request_state_machine() {
    let mode = transfer_mode(DataDirection::Read, 4, false);

    assert_ne!(mode & XFER_MODE_MULTI_BLOCK, 0);
    assert_eq!(mode & XFER_MODE_AUTO_CMD12, 0);
}

#[test]
fn fifo_status_consumes_irq_cached_buffer_ready() {
    let mut host = Sdhci::new();
    host.enable_completion_irq();
    host.irq_state_mut().begin_request();
    let generation = host.irq_state().generation();
    host.irq_state_mut().cache_if_current(
        generation,
        NORMAL_INT_BUFFER_WRITE_READY | NORMAL_INT_XFER_COMPLETE,
        0,
    );

    let (status, _) = host.take_fifo_irq_status(NORMAL_INT_BUFFER_WRITE_READY | NORMAL_INT_ERROR);

    assert_ne!(status & NORMAL_INT_BUFFER_WRITE_READY, 0);
    assert_eq!(
        host.irq_state().pending_normal() & NORMAL_INT_BUFFER_WRITE_READY,
        0,
        "FIFO ready must be consumed after the data step handles it"
    );
    assert_ne!(
        host.irq_state().pending_normal() & NORMAL_INT_XFER_COMPLETE,
        0,
        "transfer completion belongs to the data-complete poll step"
    );
}

#[test]
fn fifo_status_consumes_irq_cached_error_bits() {
    let mut host = Sdhci::new();
    host.enable_completion_irq();
    host.irq_state_mut().begin_request();
    let generation = host.irq_state().generation();
    host.irq_state_mut().cache_if_current(generation, NORMAL_INT_ERROR, ERROR_INT_DATA_TIMEOUT);

    let (status, error) =
        host.take_fifo_irq_status(NORMAL_INT_BUFFER_READ_READY | NORMAL_INT_ERROR);

    assert_ne!(
        status & NORMAL_INT_ERROR,
        0,
        "FIFO poll must observe error status cached by the IRQ handler"
    );
    assert_ne!(
        error & ERROR_INT_DATA_TIMEOUT,
        0,
        "FIFO poll must preserve error bits after the IRQ handler clears hardware status"
    );
    assert_eq!(host.irq_state().pending_normal() & NORMAL_INT_ERROR, 0);
    assert_eq!(host.irq_state().pending_error(), 0);
}

#[test]
fn new_command_discards_cached_irq_status_from_previous_request() {
    let mut host = Sdhci::new();
    host.irq_state_mut().begin_request();
    let old_generation = host.irq_state().generation();
    host.irq_state_mut().cache_if_current(
        old_generation,
        NORMAL_INT_CMD_COMPLETE | NORMAL_INT_XFER_COMPLETE,
        ERROR_INT_DATA_TIMEOUT,
    );
    host.queue_data(PendingData {
        direction: DataDirection::Read,
        block_size: 512,
        block_count: 1,
    }, false);

    host.submit_command(&cmd17(0)).unwrap();

    assert_eq!(host.irq_state().pending_normal(), 0);
    assert_eq!(host.irq_state().pending_error(), 0);
}

#[test]
fn issued_command_keeps_irq_generation_active_for_completion_cache() {
    let mut host = Sdhci::new();
    host.enable_completion_irq();
    host.queue_data(PendingData {
        direction: DataDirection::Read,
        block_size: 512,
        block_count: 1,
    }, false);

    host.submit_command(&cmd17(0)).unwrap();
    assert_ne!(host.irq_state().generation(), 0);

    host.write_u16(REG_NORMAL_INT_STATUS, NORMAL_INT_CMD_COMPLETE);
    assert_eq!(host.handle_irq(), Event::CommandComplete);
    assert_ne!(
        host.irq_state().pending_normal() & NORMAL_INT_CMD_COMPLETE,
        0,
        "IRQ handler must cache completion status for the active generation"
    );
}

#[test]
fn irq_cache_drops_events_from_previous_generation() {
    let mut host = Sdhci::new();
    host.irq_state_mut().begin_request();
    let old_generation = host.irq_state().generation();
    host.irq_state_mut().end_request();
    host.irq_state_mut().begin_request();
    assert_ne!(host.irq_state().generation(), old_generation);

    host.irq_state_mut().cache_if_current(old_generation, NORMAL_INT_CMD_COMPLETE, 0);

    assert_eq!(host.irq_state().pending_normal(), 0);
}
