use io_future_threadpool::error::{check_full_write, IoError, MyError};
use io_future_threadpool::iocp_threadpool::{IocpResult, SubmissionOutcome, ERROR_IO_PENDING};
use io_future_threadpool::stream::{overlapped_call_outcome, AsyncTcpStream, WriteStep};

#[test]
fn connect_success_wires_up_stream() {
    let s = AsyncTcpStream::connect(Ok(3), true, 0, true, 0).unwrap();
    assert_eq!(s.handle.id, 3);
    assert!(s.handle.sync_suppressed);
    assert!(s.handle.registered);
    assert_eq!(s.tp_io.handle_id, 3);
}

#[test]
fn connect_failure_surfaces_os_error() {
    let r = AsyncTcpStream::connect(Err(10061), true, 0, true, 0);
    assert_eq!(r, Err(IoError::Os(10061)));
}

#[test]
fn connect_suppression_failure_aborts_setup() {
    let r = AsyncTcpStream::connect(Ok(3), false, 10022, true, 0);
    assert_eq!(r, Err(IoError::Os(10022)));
}

#[test]
fn connect_registration_failure_aborts_setup() {
    let r = AsyncTcpStream::connect(Ok(3), true, 0, false, 1450);
    assert_eq!(r, Err(IoError::Os(1450)));
}

#[test]
fn successful_call_reports_synchronous_bytes() {
    let o = overlapped_call_outcome(true, 128, 0);
    assert_eq!(o, SubmissionOutcome::CompletedSynchronously { bytes: 128 });
}

#[test]
fn unsuccessful_call_hands_over_last_error() {
    let o = overlapped_call_outcome(false, 0, 997);
    assert_eq!(o, SubmissionOutcome::NoSynchronousResult { last_error: 997 });
}

fn test_stream() -> AsyncTcpStream {
    AsyncTcpStream::connect(Ok(1), true, 0, true, 0).unwrap()
}

#[test]
fn write_all_transfers_exactly_the_payload() {
    let steps = vec![WriteStep::Sent(1), WriteStep::Sent(2), WriteStep::Sent(1)];
    assert_eq!(test_stream().write_all(4, &steps), Some(Ok(())));
}

#[test]
fn write_all_single_chunk_covers_everything() {
    let steps = vec![WriteStep::Sent(10)];
    assert_eq!(test_stream().write_all(4, &steps), Some(Ok(())));
}

#[test]
fn write_all_empty_payload_needs_no_write() {
    let steps: Vec<WriteStep> = vec![];
    assert_eq!(test_stream().write_all(0, &steps), Some(Ok(())));
}

#[test]
fn write_all_zero_bytes_sent_is_disconnection() {
    let steps = vec![WriteStep::Sent(2), WriteStep::Sent(0), WriteStep::Sent(2)];
    assert_eq!(test_stream().write_all(4, &steps), Some(Err(IoError::Disconnected)));
}

#[test]
fn write_all_os_failure_is_surfaced() {
    let steps = vec![WriteStep::Sent(1), WriteStep::Failed(10054)];
    assert_eq!(test_stream().write_all(4, &steps), Some(Err(IoError::Os(10054))));
}

#[test]
fn write_all_never_succeeds_short() {
    // Three bytes delivered for a four-byte payload: the loop keeps the
    // operation open rather than reporting success.
    let steps = vec![WriteStep::Sent(3)];
    assert_eq!(test_stream().write_all(4, &steps), None);
}

#[test]
fn full_write_passes_the_check() {
    assert_eq!(check_full_write(54, 54), Ok(()));
}

#[test]
fn short_write_is_reported() {
    assert_eq!(check_full_write(12, 54), Err(MyError::ShortWrite));
}

#[test]
fn error_values_compare_by_contents() {
    assert_eq!(MyError::IoError(IoError::Os(5)), MyError::IoError(IoError::Os(5)));
    assert_ne!(MyError::IoError(IoError::Os(5)), MyError::IoError(IoError::Disconnected));
    assert_eq!(MyError::IocpCreationFailed(IoError::Os(6)), MyError::IocpCreationFailed(IoError::Os(6)));
    assert_ne!(
        MyError::IocpCreationFailed(IoError::Os(6)),
        MyError::IocpAssociationFailed(IoError::Os(6))
    );
}

#[test]
fn poll_write_synchronous_completion_reports_bytes() {
    let r = test_stream().poll_write(true, 9, 0, None, 1);
    assert_eq!(r, Some(Ok(9)));
}

#[test]
fn poll_write_pending_resolves_through_the_callback() {
    let r = test_stream().poll_write(
        false,
        0,
        ERROR_IO_PENDING,
        Some(IocpResult { io_result: 0, number_of_bytes_transferred: 9 }),
        1,
    );
    assert_eq!(r, Some(Ok(9)));
}

#[test]
fn poll_read_immediate_failure_is_surfaced() {
    let r = test_stream().poll_read(false, 0, 10054, None, 1);
    assert_eq!(r, Some(Err(IoError::Os(10054))));
}

#[test]
fn poll_read_pending_without_completion_stays_open() {
    let r = test_stream().poll_read(false, 0, ERROR_IO_PENDING, None, 1);
    assert_eq!(r, None);
}

#[test]
fn io_errors_convert_into_client_errors() {
    assert_eq!(MyError::from(IoError::Os(5)), MyError::IoError(IoError::Os(5)));
    assert_eq!(MyError::from(IoError::Disconnected), MyError::IoError(IoError::Disconnected));
}
