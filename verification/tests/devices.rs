use tgoskits::camera::{CAMERA_FORMAT_MJPEG, FrameAttempts, FrameStep, camera_info, is_valid_jpeg_frame};
use tgoskits::cmsg::{CMsgBuilder, SCM_RIGHTS, SOL_SOCKET, cmsg_payload_len, parse_rights};
use tgoskits::cvi_mailbox::{
    MAILBOX_MAGIC, Mailbox, ProbeBuf, ProbeStr, decode_dims, isr_deassert, isr_latest_frame, merge_frame_count,
};
use tgoskits::display::{DisplayInfo, MainDisplay, framebuffer_flush, framebuffer_info, has_display};
use tgoskits::dma::{byte_pool_expand_pages, coherent_uses_pages, layout_pages, page_alignment};
use tgoskits::errno::AxError;
use tgoskits::evdev::{
    EV_KEY, EventRead, EvdevIoctl, EventTypeBits, KeyState, encode_input_event, event_read_plan, event_read_result, is_mouse, LED_CNT, SW_CNT, copy_bytes, decode_evdev_ioctl, event_bits_reply_len,
    key_state_reply, record_key_event, zero_bits_len,
};
use tgoskits::prctl::{ARCH_GET_FS, ARCH_GET_GS, ARCH_SET_CPUID, ARCH_SET_FS, SegmentBases, arch_prctl, getppid};
use tgoskits::rtc::{RTC_RD_TIME, Rtc, RtcRequest, RtcTime};
use tgoskits::membarrier::{MEMBARRIER_CMD_GLOBAL, MEMBARRIER_CMD_QUERY, SUPPORTED_COMMANDS, sys_membarrier};
use tgoskits::tty::{WindowSize, expand_newlines};
use tgoskits::vmx::{
    GeneralRegisters, GeneralRegistersDiff, VmxInstructionError, VmxInterruptionType, read_vmcs_revision_id,
};

fn ioc_read(nr: u32, size: u32) -> u32 {
    (2 << 30) | (size << 16) | (0x45 << 8) | nr
}

#[test]
fn evdev_fixed_and_encoded_ioctls_decode() {
    assert_eq!(decode_evdev_ioctl(0x8004_4501), EvdevIoctl::Version);
    assert_eq!(decode_evdev_ioctl(0x8008_4502), EvdevIoctl::Id);
    assert_eq!(decode_evdev_ioctl(0x4004_4590), EvdevIoctl::Grab);
    assert_eq!(decode_evdev_ioctl(ioc_read(0x06, 64)), EvdevIoctl::Name { size: 64 });
    assert_eq!(decode_evdev_ioctl(ioc_read(0x18, 96)), EvdevIoctl::KeyState { size: 96 });
    assert_eq!(decode_evdev_ioctl(ioc_read(0x19, 8)), EvdevIoctl::ZeroBits { bits: LED_CNT, size: 8 });
    assert_eq!(decode_evdev_ioctl(ioc_read(0x1b, 8)), EvdevIoctl::ZeroBits { bits: SW_CNT, size: 8 });
    assert_eq!(decode_evdev_ioctl(ioc_read(0x21, 96)), EvdevIoctl::EventBits { ty: 1, size: 96 });
    assert_eq!(decode_evdev_ioctl(ioc_read(0x40, 24)), EvdevIoctl::AbsInfo);
    // Wrong type letter or a write direction are invalid.
    assert_eq!(decode_evdev_ioctl((2 << 30) | (8 << 16) | (0x46 << 8) | 0x06), EvdevIoctl::Invalid);
    assert_eq!(decode_evdev_ioctl((1 << 30) | (8 << 16) | (0x45 << 8) | 0x06), EvdevIoctl::Invalid);
}

#[test]
fn evdev_reply_lengths_round_up_and_clip() {
    assert_eq!(zero_bits_len(0x11, 100), 3);
    assert_eq!(zero_bits_len(0x11, 2), 2);
    assert_eq!(event_bits_reply_len(0x300, 8), 8);
    assert_eq!(event_bits_reply_len(16, 8), 2);
    let mut dst = [9u8; 4];
    assert_eq!(copy_bytes(&[1, 2], &mut dst), 2);
    assert_eq!(dst, [1, 2, 9, 9]);
    let mut small = [0u8; 1];
    assert_eq!(copy_bytes(&[7, 8, 9], &mut small), 1);
    assert_eq!(small, [7]);
}

#[test]
fn membarrier_query_reports_supported_commands() {
    assert_eq!(sys_membarrier(MEMBARRIER_CMD_QUERY, 0, 0), Ok(SUPPORTED_COMMANDS as isize));
    assert_eq!(sys_membarrier(MEMBARRIER_CMD_QUERY, 0, 0), Ok(0x3e));
    assert_eq!(sys_membarrier(MEMBARRIER_CMD_GLOBAL, 0, 0), Ok(0));
    assert_eq!(sys_membarrier(MEMBARRIER_CMD_GLOBAL, 1, 0), Err(AxError::InvalidInput));
}

#[test]
fn rights_payload_parses_into_descriptors() {
    let data = [3u8, 0, 0, 0, 0x10, 0x01, 0, 0];
    assert_eq!(parse_rights(SOL_SOCKET, SCM_RIGHTS, &data), Ok(vec![3, 0x110]));
    assert_eq!(parse_rights(SOL_SOCKET, SCM_RIGHTS, &data[..3]), Err(AxError::InvalidInput));
    assert_eq!(parse_rights(SOL_SOCKET, 2, &data), Err(AxError::InvalidInput));
    assert_eq!(parse_rights(SOL_SOCKET, SCM_RIGHTS, &[0xff, 0xff, 0xff, 0xff]), Err(AxError::BadFileDescriptor));
    assert_eq!(cmsg_payload_len(15), Err(AxError::InvalidInput));
    assert_eq!(cmsg_payload_len(24), Ok(8));
}

#[test]
fn control_message_buffer_accounts_headers() {
    let mut b = CMsgBuilder::new(40);
    assert_eq!(b.body_capacity(), Some(24));
    assert_eq!(b.push(8), 24);
    assert_eq!(b.len(), 24);
    assert_eq!(b.body_capacity(), Some(0));
    assert_eq!(b.push(0), 16);
    assert_eq!(b.body_capacity(), None);
}

#[test]
fn coherent_dma_sizes_round_to_pages() {
    assert_eq!(layout_pages(1), 1);
    assert_eq!(layout_pages(4096), 1);
    assert_eq!(layout_pages(4097), 2);
    assert!(coherent_uses_pages(4096));
    assert!(!coherent_uses_pages(4095));
    assert_eq!(byte_pool_expand_pages(2), 2);
    assert_eq!(byte_pool_expand_pages(10), 4);
    assert_eq!(page_alignment(64), 4096);
    assert_eq!(page_alignment(8192), 8192);
}

#[test]
fn raw_reader_expands_newlines_until_full() {
    assert_eq!(expand_newlines(b"a\nb", 80), b"a\r\nb".to_vec());
    assert_eq!(expand_newlines(b"a\nb", 2), b"a\r".to_vec());
    assert_eq!(WindowSize::default_terminal(), WindowSize { ws_row: 28, ws_col: 110, ws_xpixel: 0, ws_ypixel: 0 });
}

#[test]
fn camera_frames_need_both_jpeg_markers() {
    let mut frame = vec![0u8; 5000];
    frame[0] = 0xff;
    frame[1] = 0xd8;
    frame[4998] = 0xff;
    frame[4999] = 0xd9;
    assert!(is_valid_jpeg_frame(&frame));
    frame[4999] = 0;
    assert!(!is_valid_jpeg_frame(&frame));
    assert!(!is_valid_jpeg_frame(&[0xff, 0xd8, 0xff, 0xd9]));
    let info = camera_info(640, 480, true);
    assert_eq!(info.format, CAMERA_FORMAT_MJPEG);
    assert_eq!(info.connected, 1);
}

#[test]
fn mailbox_interrupt_and_frame_merging() {
    assert_eq!(decode_dims(0x2801_e000), (640, 480));
    assert_eq!(isr_latest_frame(MAILBOX_MAGIC, 7, 3), 7);
    assert_eq!(isr_latest_frame(MAILBOX_MAGIC, 0, 3), 3);
    assert_eq!(isr_latest_frame(0, 9, 3), 3);
    assert_eq!(isr_deassert(0, 0xff), None);
    assert_eq!(isr_deassert(0x2, 0x3), Some((0x2, 0x1)));
    let mb = Mailbox { frame_count: 5, ..Mailbox::zeroed() };
    assert_eq!(merge_frame_count(mb, 9, 7).frame_count, 9);
    assert_eq!(merge_frame_count(mb, 2, 4).frame_count, 5);
}

#[test]
fn probe_buffer_streams_its_sample() {
    let mut sample = ProbeStr::new();
    sample.write_str(b"hello");
    let mut buf = ProbeBuf::new();
    assert!(buf.needs_sample());
    buf.load_sample(&sample);
    let mut out = [0u8; 3];
    assert_eq!(buf.probe_stream(&mut out), 3);
    assert_eq!(&out, b"hel");
    assert_eq!(buf.probe_stream(&mut out), 2);
    assert_eq!(&out[..2], b"lo");
    assert_eq!(buf.probe_stream(&mut out), 0);
    assert!(buf.needs_sample());
}

#[test]
fn display_queries() {
    let none = MainDisplay::init_display(None);
    assert!(!has_display(&none));
    let info = DisplayInfo { width: 800, height: 600, fb_base_vaddr: 0x1000, fb_size: 800 * 600 * 4 };
    let d = MainDisplay::init_display(Some(info));
    assert!(has_display(&d));
    assert_eq!(framebuffer_info(&d), info);
    assert!(framebuffer_flush::<()>(Ok(())));
    assert!(!framebuffer_flush(Err(AxError::Io)));
}

fn regs() -> GeneralRegisters {
    GeneralRegisters {
        rax: 0, rcx: 1, rdx: 2, rbx: 3, rsp: 4, rbp: 5, rsi: 6, rdi: 7,
        r8: 8, r9: 9, r10: 10, r11: 11, r12: 12, r13: 13, r14: 14, r15: 15,
    }
}

#[test]
fn register_diff_lists_changed_registers() {
    let a = regs();
    assert!(GeneralRegistersDiff::new(a, a).is_same());
    let mut b = a;
    b.rdx = 100;
    b.r15 = 0;
    let d = GeneralRegistersDiff::new(a, b);
    assert!(!d.is_same());
    assert_eq!(d.changed_registers(), vec![2, 15]);
    assert_eq!(b.get_reg_of_index(2), 100);
}

#[test]
fn vmx_error_and_interruption_types() {
    assert_eq!(VmxInstructionError::from_code(0).as_str(), "OK");
    assert_eq!(VmxInstructionError::from_code(7).as_str(), "VM entry with invalid control field(s)");
    assert_eq!(VmxInstructionError::from_code(14).as_str(), "[INVALID]");
    assert!(VmxInterruptionType::from_vector(3).is_soft());
    assert!(!VmxInterruptionType::from_vector(14).is_soft());
    assert_eq!(VmxInterruptionType::from_vector(14), VmxInterruptionType::HardException);
    assert_eq!(VmxInterruptionType::from_vector(32), VmxInterruptionType::External);
    assert!(VmxInterruptionType::vector_has_error_code(14));
    assert!(!VmxInterruptionType::vector_has_error_code(3));
    assert_eq!(read_vmcs_revision_id(0xdead_0000_8000_0004), 4);
}

#[test]
fn rtc_reports_utc_calendar_fields() {
    let rtc = Rtc;
    assert_eq!(rtc.ioctl_request(RTC_RD_TIME), Ok(RtcRequest::ReadTime));
    assert_eq!(rtc.ioctl_request(0x5401), Err(AxError::NotATty));
    assert_eq!(rtc.read_at(&[], 0), Ok(0));
    // Sun, 11 Sep 2022 18:34:48 UTC.
    assert_eq!(
        rtc.read_time(1_662_921_288_000_000_000),
        RtcTime {
            tm_sec: 48,
            tm_min: 34,
            tm_hour: 18,
            tm_mday: 11,
            tm_mon: 8,
            tm_year: 122,
            tm_wday: 0,
            tm_yday: 0,
            tm_isdst: 0,
        }
    );
    let epoch = rtc.read_time(0);
    assert_eq!((epoch.tm_year, epoch.tm_mon, epoch.tm_mday, epoch.tm_hour), (70, 0, 1, 0));
}

#[test]
fn key_state_follows_press_and_release() {
    let mut keys = KeyState::new();
    record_key_event(&mut keys, EV_KEY, 30, 1);
    assert!(keys.is_pressed(30));
    // Auto-repeat keeps it down; another event type changes nothing.
    record_key_event(&mut keys, EV_KEY, 30, 2);
    record_key_event(&mut keys, 0, 30, 0);
    assert!(keys.is_pressed(30));
    record_key_event(&mut keys, EV_KEY, 30, 0);
    assert!(!keys.is_pressed(30));
    let mut out = [0u8; 200];
    assert_eq!(key_state_reply(&keys, &mut out), 96);
    let mut small = [0u8; 8];
    assert_eq!(key_state_reply(&keys, &mut small), 8);
}

#[test]
fn supported_event_types_bitmap() {
    let bits = EventTypeBits::from_supported(&[true, true, false, true]);
    assert!(bits.supports(0));
    assert!(bits.supports(3));
    assert!(!bits.supports(2));
    assert!(!bits.supports(4));
    let mut out = [0u8; 8];
    assert_eq!(bits.reply(&mut out), 4);
}

#[test]
fn frame_capture_retries_once_then_gives_up() {
    let mut good = vec![0u8; 5000];
    good[0] = 0xff;
    good[1] = 0xd8;
    good[4998] = 0xff;
    good[4999] = 0xd9;
    let mut a = FrameAttempts::new();
    assert_eq!(a.on_capture(Some(&good[..100])), FrameStep::Retry { teardown: false });
    assert_eq!(a.on_capture(Some(&good)), FrameStep::Deliver);
    let mut b = FrameAttempts::new();
    assert_eq!(b.on_capture(None), FrameStep::Retry { teardown: true });
    assert_eq!(b.on_capture(None), FrameStep::GiveUp { teardown: true });
}

#[test]
fn arch_prctl_sets_and_reads_segment_bases() {
    let mut regs = SegmentBases { fs_base: 1, gs_base: 2 };
    assert_eq!(arch_prctl(&mut regs, ARCH_SET_FS, 0x7000), Ok((0, None)));
    assert_eq!(regs.fs_base, 0x7000);
    assert_eq!(arch_prctl(&mut regs, ARCH_GET_FS, 0), Ok((0, Some(0x7000))));
    assert_eq!(arch_prctl(&mut regs, ARCH_GET_GS, 0), Ok((0, Some(2))));
    assert_eq!(arch_prctl(&mut regs, ARCH_SET_CPUID, 1), Err(AxError::NoSuchDevice));
    assert_eq!(arch_prctl(&mut regs, 0x2000, 1), Err(AxError::InvalidInput));
    assert_eq!(getppid(Some(4)), Ok(4));
    assert_eq!(getppid(None), Err(AxError::NoSuchProcess));
}

#[test]
fn input_events_are_encoded_little_endian() {
    let b = encode_input_event(0x0102, 0x0304, 1, 30, -1);
    assert_eq!(b.len(), 24);
    assert_eq!(&b[0..8], &[0x02, 0x01, 0, 0, 0, 0, 0, 0]);
    assert_eq!(&b[8..16], &[0x04, 0x03, 0, 0, 0, 0, 0, 0]);
    assert_eq!(&b[16..20], &[1, 0, 30, 0]);
    assert_eq!(&b[20..24], &[0xff, 0xff, 0xff, 0xff]);
    assert_eq!(event_read_plan(0), Ok(EventRead::Empty));
    assert_eq!(event_read_plan(10), Err(AxError::InvalidInput));
    assert_eq!(event_read_plan(50), Ok(EventRead::Slots(2)));
    assert_eq!(event_read_result(0), Err(AxError::WouldBlock));
    assert_eq!(event_read_result(48), Ok(48));
    let mut keys = [0u8; 0x60];
    assert!(!is_mouse(&keys));
    keys[0x110 / 8] = 1;
    assert!(is_mouse(&keys));
}
