use tgoskits::block_runtime::{ActiveQueue, RequestOp, WindowEntry};
use tgoskits::block_submit::{AfterHarvest, AfterSubmit, DmaDirection, SubmitIo, Submission, TransferChunk, io_direction};
use tgoskits::errno::AxError;
use tgoskits::sdmmc_rdif::BlkError;

fn chunk(byte_offset: usize, byte_len: usize) -> TransferChunk {
    TransferChunk { lba: (byte_offset / 512) as u64, block_count: (byte_len / 512) as u32, byte_offset, byte_len }
}

fn entry(key: u64, c: TransferChunk) -> WindowEntry {
    WindowEntry { key, queue_id: 7, byte_offset: c.byte_offset, byte_len: c.byte_len }
}

#[test]
fn only_reads_and_writes_move_data() {
    assert_eq!(io_direction(RequestOp::Read), Ok(DmaDirection::FromDevice));
    assert_eq!(io_direction(RequestOp::Write), Ok(DmaDirection::ToDevice));
    assert_eq!(io_direction(RequestOp::Flush), Err(AxError::InvalidInput));
}

#[test]
fn refused_chunk_is_retried_on_its_queue_and_errors_finish_the_transfer() {
    let q = ActiveQueue { index: 0, queue_id: 7, window: 2 };
    let mut s = SubmitIo::new(vec![q], 2048);
    assert_eq!(s.total_window, 2);

    assert_eq!(s.next_submission(), Some(Submission::Plan(q)));
    let c1 = chunk(0, 1024);
    assert_eq!(s.chunk_planned(q, Some(c1)), Some(Submission::Submit(q, c1)));
    assert_eq!(s.next_byte_offset, 1024);
    assert_eq!(s.submitted(q, c1, Ok(entry(1, c1))), AfterSubmit::Continue);

    assert_eq!(s.next_submission(), Some(Submission::Plan(q)));
    let c2 = chunk(1024, 1024);
    s.chunk_planned(q, Some(c2));
    assert_eq!(s.next_byte_offset, 2048);
    // The queue refuses the chunk while another is in flight.
    assert_eq!(s.submitted(q, c2, Err(BlkError::Retry)), AfterSubmit::Stop);
    assert_eq!(s.deferred, Some((0, c2)));
    assert_eq!(s.next_byte_offset, 1024);

    let done = s.harvest(&[(1, Ok(()))]);
    assert_eq!(done, vec![entry(1, c1)]);
    assert!(s.active.is_empty());
    assert_eq!(s.after_harvest(true, false), AfterHarvest::Continue);

    // The deferred chunk goes first, to its own queue.
    assert_eq!(s.next_submission(), Some(Submission::Submit(q, c2)));
    assert_eq!(s.deferred, None);
    assert_eq!(s.next_byte_offset, 2048);
    assert_eq!(s.submitted(q, c2, Ok(entry(2, c2))), AfterSubmit::Continue);
    assert_eq!(s.next_submission(), Some(Submission::Plan(q)));
    assert_eq!(s.chunk_planned(q, None), None);

    // Nothing completed yet: wait for any in-flight chunk.
    assert!(s.harvest(&[]).is_empty());
    assert_eq!(s.after_harvest(false, false), AfterHarvest::WaitAnyActive);

    s.harvest(&[(2, Err(BlkError::Io))]);
    assert_eq!(s.first_error, Some(BlkError::Io));
    assert_eq!(s.after_harvest(true, false), AfterHarvest::Finish);
    assert_eq!(s.finish(), Err(AxError::Io));
    assert_eq!(s.next_submission(), None);
}

#[test]
fn successful_transfer_finishes_once_every_byte_is_submitted() {
    let q = ActiveQueue { index: 0, queue_id: 7, window: 1 };
    let mut s = SubmitIo::new(vec![q], 512);
    assert_eq!(s.next_submission(), Some(Submission::Plan(q)));
    let c = chunk(0, 512);
    s.chunk_planned(q, Some(c));
    s.submitted(q, c, Ok(entry(9, c)));
    // The single window is full.
    assert_eq!(s.next_submission(), None);
    s.harvest(&[(9, Ok(()))]);
    assert_eq!(s.after_harvest(true, false), AfterHarvest::Finish);
    assert_eq!(s.finish(), Ok(()));
}

#[test]
fn refusal_with_nothing_in_flight_waits_for_queue_progress() {
    let q = ActiveQueue { index: 0, queue_id: 7, window: 4 };
    let mut s = SubmitIo::new(vec![q], 512);
    s.next_submission();
    let c = chunk(0, 512);
    s.chunk_planned(q, Some(c));
    assert_eq!(s.submitted(q, c, Err(BlkError::Retry)), AfterSubmit::WaitQueueProgress(7));
    s.queue_progress(false);
    assert_eq!(s.first_error, Some(BlkError::Io));
    assert_eq!(s.after_harvest(false, false), AfterHarvest::Finish);
}

#[test]
fn driver_error_stops_submission() {
    let q = ActiveQueue { index: 0, queue_id: 7, window: 4 };
    let mut s = SubmitIo::new(vec![q], 512);
    s.next_submission();
    let c = chunk(0, 512);
    s.chunk_planned(q, Some(c));
    assert_eq!(s.submitted(q, c, Err(BlkError::NoMemory)), AfterSubmit::Stop);
    assert_eq!(s.finish(), Err(AxError::NoMemory));
    // An error on a poisoned device ends the transfer at once.
    assert_eq!(s.after_harvest(false, true), AfterHarvest::Finish);
}
