use texture_share_ipc::error::IpcError;
use texture_share_ipc::ipc_unix_socket::{
    ancillary_buffer_len, check_ack, classify_read, compute_cmsg_header_size, make_ack, retry_step,
    sleep_interval, HandleTransfer, RecvCursor, RetryStep, StreamEvent, TransferPhase, ACK_BYTE,
};

#[test]
fn sleep_interval_is_a_bounded_fraction() {
    assert_eq!(sleep_interval(10_000), 100);
    assert_eq!(sleep_interval(50), 5);
    assert_eq!(sleep_interval(0), 0);
    assert_eq!(sleep_interval(u64::MAX), 100);
}

#[test]
fn retry_policy_never_blocks_past_the_timeout() {
    assert_eq!(retry_step(true, 0, 1000), RetryStep::Done);
    assert_eq!(retry_step(true, 5000, 1000), RetryStep::Done);
    assert_eq!(retry_step(false, 1001, 1000), RetryStep::GiveUp);
    assert_eq!(retry_step(false, 1000, 1000), RetryStep::SleepAndRetry);
    assert_eq!(retry_step(false, 0, 1000), RetryStep::SleepAndRetry);
}

#[test]
fn partial_reads_accumulate_into_one_envelope() {
    let mut cursor = RecvCursor::new(10);
    assert!(!cursor.complete());
    assert_eq!(cursor.remaining(), 10);
    assert!(!cursor.feed(&vec![1, 2, 3]));
    assert_eq!(cursor.remaining(), 7);
    assert!(!cursor.feed(&vec![4, 5, 6, 7]));
    assert!(cursor.feed(&vec![8, 9, 10]));
    assert!(cursor.complete());
    assert_eq!(cursor.buf, vec![1, 2, 3, 4, 5, 6, 7, 8, 9, 10]);
}

#[test]
fn short_read_mid_envelope_means_closed() {
    assert_eq!(classify_read(16, false), StreamEvent::Data);
    assert_eq!(classify_read(0, true), StreamEvent::ClosedByPeer);
    assert_eq!(classify_read(0, false), StreamEvent::NothingYet);
}

#[test]
fn ack_is_a_single_byte_of_value_one() {
    let ack = make_ack();
    assert_eq!(ack, vec![1u8]);
    assert!(check_ack(ACK_BYTE));
    assert!(!check_ack(0));
    assert!(!check_ack(2));
}

#[test]
fn ancillary_buffer_fits_header_and_handles() {
    assert_eq!(compute_cmsg_header_size(), 20);
    assert_eq!(ancillary_buffer_len(0), 20);
    assert_eq!(ancillary_buffer_len(1), 24);
    assert_eq!(ancillary_buffer_len(2), 28);
}

#[test]
fn handle_transfer_counts_match_and_ack_precedes_release() {
    let mut t = HandleTransfer::new();
    assert!(!t.may_release());
    t.note_data_sent();
    assert!(!t.may_release());
    t.note_handles_sent(2);
    assert!(!t.may_release());
    t.note_handles_received(2).expect("counts must match");
    assert_eq!(t.received_count, t.sent_count);
    assert!(!t.may_release());
    t.note_ack_received();
    assert!(t.may_release());
    assert_eq!(t.phase, TransferPhase::AckReceived);
    assert_eq!(t.received_count, 2);
}

#[test]
fn handle_transfer_rejects_a_short_delivery() {
    let mut t = HandleTransfer::new();
    t.note_data_sent();
    t.note_handles_sent(2);
    assert!(matches!(
        t.note_handles_received(1),
        Err(IpcError::UnexpectedResult)
    ));
    assert_eq!(t.phase, TransferPhase::HandlesSent);
}
