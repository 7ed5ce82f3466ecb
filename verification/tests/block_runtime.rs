use tgoskits::block_runtime::{
    ActiveQueue, BarrierWaiter, BlockCompletionMode, BlockGeometry, BlockIoCounters, BlockRuntime,
    BlockRuntimeConfig, DEFAULT_MAX_TRANSFER_BYTES, DataIoGate, DrainNotify, DrainState, FlushStep,
    IRQ_DRIVEN_MAX_TRANSFER_BYTES, NoopDrainWake, QueueProgressWaiter, RequestOp, WindowEntry, block_drain_has_pending,
    block_io_stats, drain_selection_contains, map_blk_err_to_ax_err, mark_block_drain_device,
    mark_block_drain_device_from_irq, queue_has_window, queue_ids_from_bits, queue_window,
    rdif_block_runtime_config, release_block_irqs_for_passthrough, remove_barrier_waiter,
    remove_queue_progress_waiter, same_device_identity, select_active_queue, take_block_drain_selection, validate_io,
    wake_queue_progress,
};
use tgoskits::errno::AxError;
use tgoskits::irq_notify::{IrqNotify, WaitOutcome, WakeRequest};
use tgoskits::block_runtime::{QueueDescriptor, validate_runtime_queues};
use tgoskits::sdmmc::Error;
use tgoskits::sdmmc_rdif::{BlkError, block_addr_for_card, can_fallback_to_fifo, map_dev_err_to_blk_err};

// The planner-chunk-size checks on the same configurations are not
// repeated here: the transfer planner belongs to the `rdif_block` driver
// interface, which is not part of this library (its source is not at
// hand). The transfer limit the planner is built from is checked.
#[test]
fn irq_capable_rdif_blocks_use_large_runtime_transfer_chunks() {
    let config = rdif_block_runtime_config(NoopDrainWake, 1, 1);
    assert_eq!(config.max_transfer_bytes, IRQ_DRIVEN_MAX_TRANSFER_BYTES);

    let config = rdif_block_runtime_config(NoopDrainWake, 0, 1);
    assert_eq!(config.max_transfer_bytes, DEFAULT_MAX_TRANSFER_BYTES);
}

#[test]
fn default_runtime_config_polls() {
    let config = BlockRuntimeConfig::new(NoopDrainWake);
    assert_eq!(config.completion_mode, BlockCompletionMode::Polling);
    assert_eq!(config.submit_window, 32);
    assert_eq!(config.max_segments, usize::MAX);
    assert_eq!(BlockCompletionMode::from_usize(BlockCompletionMode::IrqDriven.as_usize()), BlockCompletionMode::IrqDriven);
    assert_eq!(BlockCompletionMode::from_usize(7), BlockCompletionMode::Polling);
}

#[test]
fn drain_requests_are_never_lost() {
    let mut state = DrainState::new();
    assert!(!block_drain_has_pending(&state));
    assert_eq!(mark_block_drain_device(&mut state, 3), DrainNotify::FromTask);
    assert_eq!(mark_block_drain_device_from_irq(&mut state, 70), DrainNotify::FromIrq);
    assert!(block_drain_has_pending(&state));
    let sel = take_block_drain_selection(&mut state);
    assert!(drain_selection_contains(sel, 3));
    assert!(drain_selection_contains(sel, 70));
    assert!(sel.full_scan);
    assert!(!block_drain_has_pending(&state));
    mark_block_drain_device(&mut state, 5);
    let sel = take_block_drain_selection(&mut state);
    assert!(drain_selection_contains(sel, 5));
    assert!(!drain_selection_contains(sel, 3));
}

#[test]
fn queue_windows_and_round_robin_selection() {
    assert_eq!(queue_window(32, 4), 4);
    assert_eq!(queue_window(2, 4), 2);
    assert_eq!(queue_window(32, 0), 1);
    let queues = [
        ActiveQueue { index: 0, queue_id: 10, window: 1 },
        ActiveQueue { index: 1, queue_id: 11, window: 2 },
    ];
    let active = [WindowEntry { key: 1, queue_id: 10, byte_offset: 0, byte_len: 512 }];
    assert!(!queue_has_window(queues[0], &active));
    assert!(queue_has_window(queues[1], &active));
    let mut cursor = 0usize;
    assert_eq!(select_active_queue(&queues, &active, &mut cursor), Some(queues[1]));
    assert_eq!(cursor, 2);
    let full = [
        WindowEntry { key: 1, queue_id: 10, byte_offset: 0, byte_len: 512 },
        WindowEntry { key: 2, queue_id: 11, byte_offset: 512, byte_len: 512 },
        WindowEntry { key: 3, queue_id: 11, byte_offset: 1024, byte_len: 512 },
    ];
    assert_eq!(select_active_queue(&queues, &full, &mut cursor), None);
}

#[test]
fn io_validation_requires_whole_blocks_inside_the_device() {
    let geo = BlockGeometry { num_blocks: 8, logical_block_size: 512, read_only: false };
    assert_eq!(validate_io(geo, 0, 4096), Ok(()));
    assert_eq!(validate_io(geo, 1, 4096), Err(AxError::InvalidInput));
    assert_eq!(validate_io(geo, 0, 100), Err(AxError::InvalidInput));
    assert_eq!(validate_io(geo, u64::MAX, 512), Err(AxError::InvalidInput));
    assert!(same_device_identity(geo, geo));
    assert!(!same_device_identity(geo, BlockGeometry { read_only: true, ..geo }));
    assert_eq!(queue_ids_from_bits(0b1001_0010), vec![1, 4, 7]);
}

#[test]
fn waiter_lists_keep_order() {
    let mut barrier = vec![BarrierWaiter { task_id: 1 }, BarrierWaiter { task_id: 2 }, BarrierWaiter { task_id: 1 }];
    remove_barrier_waiter(&mut barrier, 1);
    assert_eq!(barrier, vec![BarrierWaiter { task_id: 2 }]);
    let mut waiters = vec![
        QueueProgressWaiter { queue_id: 0, task_id: 5 },
        QueueProgressWaiter { queue_id: 1, task_id: 6 },
        QueueProgressWaiter { queue_id: 0, task_id: 7 },
    ];
    remove_queue_progress_waiter(&mut waiters, 1, 6);
    assert_eq!(waiters.len(), 2);
    assert_eq!(wake_queue_progress(&mut waiters, 0), vec![5, 7]);
    assert!(waiters.is_empty());
}

#[test]
fn flush_barrier_drains_data_io() {
    let mut gate = DataIoGate::new();
    assert!(gate.begin_data_io());
    assert_eq!(gate.acquire_flush_barrier(), FlushStep::DrainData);
    assert!(!gate.begin_data_io());
    assert_eq!(gate.acquire_flush_barrier(), FlushStep::Busy);
    assert!(!gate.flush_may_proceed());
    assert!(gate.finish_data_io());
    assert!(gate.flush_may_proceed());
    gate.release_flush_barrier();
    assert!(gate.begin_data_io());
}

#[test]
fn io_counters_count_sectors() {
    let mut c = BlockIoCounters::new();
    c.record_io(RequestOp::Read, 4096);
    c.record_io(RequestOp::Write, 1024);
    c.record_io(RequestOp::Flush, 4096);
    assert_eq!(block_io_stats(&c), (1, 8, 1, 2));
}

#[test]
fn passthrough_releases_every_irq() {
    let mut none: Option<BlockRuntime> = None;
    assert_eq!(release_block_irqs_for_passthrough(&mut none), 0);
    let mut rt = Some(BlockRuntime {
        completion_modes: vec![BlockCompletionMode::IrqDriven, BlockCompletionMode::Polling],
        irq_registrations: 2,
    });
    assert_eq!(release_block_irqs_for_passthrough(&mut rt), 2);
    let rt = rt.unwrap();
    assert_eq!(rt.irq_registrations, 0);
    assert_eq!(rt.completion_modes, vec![BlockCompletionMode::Polling, BlockCompletionMode::Polling]);
}

#[test]
fn block_errors_map_to_interface_errors() {
    assert_eq!(map_blk_err_to_ax_err(BlkError::Retry), AxError::WouldBlock);
    assert_eq!(map_blk_err_to_ax_err(BlkError::NotSupported), AxError::Unsupported);
    assert_eq!(map_blk_err_to_ax_err(BlkError::InvalidBlockIndex(3)), AxError::InvalidInput);
    assert_eq!(map_dev_err_to_blk_err(Error::Busy), BlkError::Retry);
    assert_eq!(map_dev_err_to_blk_err(Error::NoCard), BlkError::NotSupported);
    assert!(can_fallback_to_fifo(Error::Misaligned));
    assert!(!can_fallback_to_fifo(Error::Busy));
    assert_eq!(block_addr_for_card(3, true), Ok(3));
    assert_eq!(block_addr_for_card(3, false), Ok(1536));
    assert_eq!(block_addr_for_card(1 << 23, false), Err(BlkError::InvalidBlockIndex(1 << 23)));
    assert_eq!(block_addr_for_card(1 << 33, true), Err(BlkError::InvalidBlockIndex(1 << 33)));
}

#[test]
fn irq_notifications_coalesce_until_drained() {
    let mut n = IrqNotify::new();
    assert!(!n.is_pending());
    assert_eq!(n.notify_irq(), WakeRequest::OneFromIrq);
    assert_eq!(n.notify(), WakeRequest::OneFromTask);
    assert!(n.is_pending());
    assert!(n.drain());
    assert!(!n.drain());
    assert_eq!(n.wait(), WaitOutcome::Sleep);
    n.notify_irq();
    assert_eq!(n.wait_timeout(true), WaitOutcome::Notified);
    assert_eq!(n.wait_timeout(true), WaitOutcome::TimedOut);
    assert_eq!(n.wait_timeout(false), WaitOutcome::Sleep);
}

fn descriptor(id: usize, blocks: u64, inflight: usize) -> QueueDescriptor {
    QueueDescriptor {
        driver_queue_id: id,
        device: BlockGeometry { num_blocks: blocks, logical_block_size: 512, read_only: false },
        max_inflight: inflight,
    }
}

#[test]
fn runtime_queues_are_validated_and_mapped() {
    let map = validate_runtime_queues(&[descriptor(5, 100, 2), descriptor(0, 100, 1)]).unwrap();
    assert_eq!(map.len(), 64);
    assert_eq!(map[5], Some(0));
    assert_eq!(map[0], Some(1));
    assert_eq!(map[1], None);

    assert!(matches!(validate_runtime_queues(&[]), Err(BlkError::InvalidRequest)));
    assert!(matches!(validate_runtime_queues(&[descriptor(64, 100, 1)]), Err(BlkError::InvalidRequest)));
    assert!(matches!(
        validate_runtime_queues(&[descriptor(3, 100, 1), descriptor(3, 100, 1)]),
        Err(BlkError::InvalidRequest)
    ));
    assert!(matches!(
        validate_runtime_queues(&[descriptor(1, 100, 1), descriptor(2, 200, 1)]),
        Err(BlkError::InvalidRequest)
    ));
    assert!(matches!(validate_runtime_queues(&[descriptor(1, 100, 0)]), Err(BlkError::InvalidRequest)));
}

#[test]
fn a_notification_is_consumed_once() {
    let mut n = IrqNotify::new();
    n.notify();
    n.notify_irq();
    assert_eq!(n.wait(), WaitOutcome::Notified);
    assert_eq!(n.wait_timeout(true), WaitOutcome::TimedOut);
    assert!(!n.drain());
}
