use tgoskits::errno::AxError;
use tgoskits::signal::{
    DefaultSignalAction, ProcessSignalManager, SA_RESTART, SIGCHLD, SIGCONT, SIGINT, SIGKILL, SIGQUIT, SIGSTOP,
    SIGTERM, SignalAction, SignalActions, SignalDisposition, SignalfdSiginfo, default_action, signalfd_has_pending,
    signalfd_read_check,
};

fn new_process() -> ProcessSignalManager {
    ProcessSignalManager::new(SignalActions::new(), 0)
}

fn bit(signo: u8) -> u64 {
    1u64 << (signo - 1)
}

#[test]
fn send_wakes_sets_pending() {
    let mut proc = new_process();
    proc.add_thread(9, 0);

    assert_eq!(proc.send_signal(SIGTERM), Some(9));
    assert!(proc.pending() & bit(SIGTERM) != 0);
}

#[test]
fn signal_ignore() {
    let mut proc = new_process();
    proc.set_action(
        SIGTERM,
        SignalAction { disposition: SignalDisposition::Ignore, ..SignalAction::default_action() },
    );

    assert_eq!(proc.send_signal(SIGTERM), None);
    assert!(proc.pending() & bit(SIGTERM) == 0);
}

#[test]
fn can_restart() {
    let mut proc = new_process();
    assert!(!proc.can_restart(SIGTERM));

    let mut action = proc.actions().get(SIGTERM);
    action.flags |= SA_RESTART;
    proc.set_action(SIGTERM, action);
    assert!(proc.can_restart(SIGTERM));
}

#[test]
fn signal_goes_to_first_thread_not_blocking_it() {
    let mut proc = new_process();
    proc.add_thread(1, bit(SIGINT));
    proc.add_thread(2, 0);
    proc.add_thread(3, 0);
    assert_eq!(proc.send_signal(SIGINT), Some(2));
    proc.thread_exited(2);
    assert_eq!(proc.send_signal(SIGINT), Some(3));
}

#[test]
fn blocked_everywhere_stays_pending_with_no_thread_woken() {
    let mut proc = new_process();
    proc.add_thread(4, bit(SIGQUIT));
    assert_eq!(proc.send_signal(SIGQUIT), None);
    assert!(proc.pending() & bit(SIGQUIT) != 0);
}

#[test]
fn default_ignored_signal_is_dropped() {
    let mut proc = new_process();
    proc.add_thread(1, 0);
    assert!(proc.signal_ignored(SIGCHLD));
    assert_eq!(proc.send_signal(SIGCHLD), None);
    assert_eq!(proc.pending(), 0);
}

#[test]
fn default_actions_follow_posix() {
    assert_eq!(default_action(SIGCHLD), DefaultSignalAction::Ignore);
    assert_eq!(default_action(SIGCONT), DefaultSignalAction::Continue);
    assert_eq!(default_action(SIGSTOP), DefaultSignalAction::Stop);
    assert_eq!(default_action(SIGQUIT), DefaultSignalAction::CoreDump);
    assert_eq!(default_action(SIGKILL), DefaultSignalAction::Terminate);
    assert_eq!(default_action(SIGTERM), DefaultSignalAction::Terminate);
}

#[test]
fn signalfd_record_carries_signal_fields() {
    let s = SignalfdSiginfo::from_signal_info(15, 0, 0);
    assert_eq!(s.ssi_signo, 15);
    assert_eq!(s.ssi_fd, -1);
    assert_eq!(s.ssi_pid, 0);
    assert!(s.pad.iter().all(|b| *b == 0));
}

#[test]
fn signalfd_record_bytes_and_readiness() {
    let s = SignalfdSiginfo::from_signal_info(15, 0, -6);
    let b = s.to_bytes();
    assert_eq!(b.len(), 128);
    assert_eq!(&b[0..4], &[15, 0, 0, 0]);
    assert_eq!(&b[8..12], &[0xfa, 0xff, 0xff, 0xff]);
    assert_eq!(&b[20..24], &[0xff, 0xff, 0xff, 0xff]);
    assert!(b[24..].iter().all(|x| *x == 0));
    assert_eq!(signalfd_read_check(127), Err(AxError::InvalidInput));
    assert_eq!(signalfd_read_check(128), Ok(()));
    assert!(signalfd_has_pending(bit(SIGTERM), bit(SIGTERM) | bit(SIGINT)));
    assert!(!signalfd_has_pending(bit(SIGTERM), bit(SIGINT)));
}
