use tgoskits::block_runtime::{ActiveQueue, BlockGeometry, BlockIoCounters, DataIoGate, RequestOp, block_io_stats};
use tgoskits::block_submit::{DmaDirection, InflightRequests, SubmitStart, begin_submit_io};
use tgoskits::camera::{FrameAttempts, FrameStep};
use tgoskits::errno::AxError;
use tgoskits::evdev::{
    EV_VERSION, EventTypeBits, EvdevIoctl, EvdevReply, KeyState, decode_evdev_ioctl, evdev_ioctl_result,
    record_key_event,
};
use tgoskits::sdmmc_rdif::BlkError;

fn geometry() -> BlockGeometry {
    BlockGeometry { num_blocks: 16, logical_block_size: 512, read_only: false }
}

fn queues() -> Vec<ActiveQueue> {
    vec![ActiveQueue { index: 0, queue_id: 3, window: 4 }]
}

#[test]
fn validated_read_is_admitted_and_counted_once() {
    let mut gate = DataIoGate::new();
    let mut counters = BlockIoCounters::new();
    let start = begin_submit_io(&mut gate, &mut counters, geometry(), false, RequestOp::Read, 2, 2048, queues());
    match start {
        Ok(SubmitStart::Started(s, dir)) => {
            assert_eq!(dir, DmaDirection::FromDevice);
            assert_eq!(s.buf_len, 2048);
            assert_eq!(s.total_window, 4);
            assert!(s.active.is_empty());
        }
        _ => panic!("transfer must start"),
    }
    assert_eq!(gate.active_data_ops, 1);
    assert_eq!(block_io_stats(&counters), (1, 4, 0, 0));
}

#[test]
fn refused_transfers_change_nothing() {
    let mut gate = DataIoGate::new();
    let mut counters = BlockIoCounters::new();
    // Poisoned device.
    assert!(matches!(
        begin_submit_io(&mut gate, &mut counters, geometry(), true, RequestOp::Read, 0, 512, queues()),
        Err(AxError::InvalidInput)
    ));
    // Not a whole number of blocks.
    assert!(matches!(
        begin_submit_io(&mut gate, &mut counters, geometry(), false, RequestOp::Write, 0, 100, queues()),
        Err(AxError::InvalidInput)
    ));
    // Past the end of the device.
    assert!(matches!(
        begin_submit_io(&mut gate, &mut counters, geometry(), false, RequestOp::Write, 15, 1024, queues()),
        Err(AxError::InvalidInput)
    ));
    // A request that moves no data.
    assert!(matches!(
        begin_submit_io(&mut gate, &mut counters, geometry(), false, RequestOp::Flush, 0, 512, queues()),
        Err(AxError::InvalidInput)
    ));
    assert_eq!(gate.active_data_ops, 0);
    assert_eq!(block_io_stats(&counters), (0, 0, 0, 0));
}

#[test]
fn transfer_waits_while_a_flush_holds_the_barrier() {
    let mut gate = DataIoGate::new();
    gate.acquire_flush_barrier();
    let mut counters = BlockIoCounters::new();
    assert!(matches!(
        begin_submit_io(&mut gate, &mut counters, geometry(), false, RequestOp::Write, 0, 512, queues()),
        Ok(SubmitStart::WaitFlush)
    ));
    assert_eq!(gate.active_data_ops, 0);
    assert_eq!(block_io_stats(&counters), (0, 0, 0, 0));
}

#[test]
fn reused_request_id_poisons_the_device() {
    let mut inflight = InflightRequests::new();
    let mut poisoned = false;
    assert_eq!(inflight.record_submitted(&mut poisoned, 3, 10), Ok(()));
    assert_eq!(inflight.record_submitted(&mut poisoned, 4, 10), Ok(()));
    assert!(!poisoned);
    assert_eq!(inflight.record_submitted(&mut poisoned, 3, 10), Err(BlkError::InvalidRequest));
    assert!(poisoned);
    inflight.retire(3, 10);
    assert!(!inflight.contains(3, 10));
    assert!(inflight.contains(4, 10));
    let mut fresh = false;
    assert_eq!(inflight.record_submitted(&mut fresh, 3, 10), Ok(()));
    assert!(!fresh);
}

#[test]
fn two_failed_captures_give_an_io_error() {
    let mut a = FrameAttempts::new();
    let first = a.on_capture(None);
    assert_eq!(first, FrameStep::Retry { teardown: true });
    assert_eq!(first.request_result(), None);
    let short = [0xffu8, 0xd8, 0xff, 0xd9];
    let second = a.on_capture(Some(&short));
    assert_eq!(second, FrameStep::GiveUp { teardown: false });
    assert_eq!(second.request_result(), Some(Err(AxError::Io)));
    assert_eq!(FrameStep::Deliver.request_result(), Some(Ok(())));
}

fn serve(req: EvdevIoctl, dst: &mut [u8]) -> Result<EvdevReply, AxError> {
    let mut keys = KeyState::new();
    record_key_event(&mut keys, 1, 1, 1);
    record_key_event(&mut keys, 1, 9, 1);
    let types = EventTypeBits::from_supported(&[true, true, false, true]);
    evdev_ioctl_result(req, b"kbd", b"phys0", b"", &keys, &types, dst)
}

#[test]
fn evdev_ioctl_results() {
    let mut buf = [0xaau8; 8];
    assert_eq!(serve(decode_evdev_ioctl(0x8004_4501), &mut buf), Ok(EvdevReply::Store(EV_VERSION)));
    assert_eq!(EV_VERSION, 0x10001);
    assert_eq!(serve(EvdevIoctl::Grab, &mut buf), Ok(EvdevReply::Return(0)));
    assert_eq!(serve(EvdevIoctl::Prop, &mut buf), Ok(EvdevReply::Return(0)));
    assert_eq!(serve(EvdevIoctl::AbsInfo, &mut buf), Ok(EvdevReply::Return(0)));
    assert_eq!(serve(EvdevIoctl::Id, &mut buf), Ok(EvdevReply::StoreDeviceId));
    assert_eq!(serve(EvdevIoctl::Invalid, &mut buf), Err(AxError::InvalidInput));
    assert_eq!(buf, [0xaa; 8]);

    assert_eq!(serve(EvdevIoctl::Name { size: 8 }, &mut buf), Ok(EvdevReply::Return(3)));
    assert_eq!(&buf[..4], b"kbd\xaa");

    let mut led = [0xaau8; 4];
    assert_eq!(serve(EvdevIoctl::ZeroBits { bits: 0x10, size: 4 }, &mut led), Ok(EvdevReply::Return(2)));
    assert_eq!(led, [0, 0, 0xaa, 0xaa]);

    let mut key_buf = [0xaau8; 100];
    assert_eq!(serve(EvdevIoctl::KeyState { size: 100 }, &mut key_buf), Ok(EvdevReply::Return(96)));
    // Keys 1 and 9 are bits 1 and 9 of the first 128-bit word, in the
    // machine's byte order.
    assert_eq!(&key_buf[..16], &0x202u128.to_ne_bytes());
    assert!(key_buf[16..96].iter().all(|b| *b == 0));
    assert_eq!(&key_buf[96..], &[0xaa; 4]);

    let mut ty_buf = [0xaau8; 2];
    assert_eq!(serve(EvdevIoctl::EventBits { ty: 0, size: 2 }, &mut ty_buf), Ok(EvdevReply::Return(2)));
    assert_eq!(&ty_buf[..], &0b1011u32.to_ne_bytes()[..2]);
    assert_eq!(serve(EvdevIoctl::EventBits { ty: 1, size: 2 }, &mut ty_buf), Ok(EvdevReply::DeviceBits(1)));
    assert_eq!(serve(EvdevIoctl::EventBits { ty: 0x11, size: 2 }, &mut ty_buf), Ok(EvdevReply::DeviceBits(0x11)));
    assert_eq!(serve(EvdevIoctl::EventBits { ty: 0x06, size: 2 }, &mut ty_buf), Err(AxError::InvalidInput));
}
