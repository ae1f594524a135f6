use io_future_threadpool::error::IoError;
use io_future_threadpool::iocp_threadpool::{
    disable_callbacks_on_synchronous_completion, run_bridged_operation, start_async_io,
    HandleState, IocpFutureState, IocpPoll, IocpResult, OverlappedOwnership, StartDisposition,
    SubmissionOutcome, Tpio, ERROR_IO_PENDING,
};

fn ready_handle(id: u64) -> (HandleState, Tpio) {
    let mut handle = HandleState::new(id);
    disable_callbacks_on_synchronous_completion(&mut handle, true, 0).unwrap();
    let tp_io = Tpio::new(&mut handle, true, 0).unwrap();
    (handle, tp_io)
}

#[test]
fn iocp_result_success_reports_bytes() {
    let r = IocpResult { io_result: 0, number_of_bytes_transferred: 42 };
    assert_eq!(r.get_number_of_bytes_transferred(), Ok(42));
}

#[test]
fn iocp_result_failure_reports_code() {
    let r = IocpResult { io_result: 10054, number_of_bytes_transferred: 3 };
    assert_eq!(r.get_number_of_bytes_transferred(), Err(IoError::Os(10054)));
}

#[test]
fn fresh_future_state_is_empty() {
    let s = IocpFutureState::new();
    assert!(s.result.is_none());
    assert!(s.waker.is_none());
}

#[test]
fn fresh_handle_is_unconfigured() {
    let h = HandleState::new(11);
    assert_eq!(h.id, 11);
    assert!(!h.sync_suppressed);
    assert!(!h.registered);
}

#[test]
fn suppression_failure_surfaces_error() {
    let mut h = HandleState::new(1);
    let r = disable_callbacks_on_synchronous_completion(&mut h, false, 5);
    assert_eq!(r, Err(IoError::Os(5)));
    assert!(!h.sync_suppressed);
}

#[test]
fn registration_failure_surfaces_error() {
    let mut h = HandleState::new(1);
    disable_callbacks_on_synchronous_completion(&mut h, true, 0).unwrap();
    let r = Tpio::new(&mut h, false, 8);
    assert_eq!(r, Err(IoError::Os(8)));
    assert!(!h.registered);
}

#[test]
fn registration_records_handle_identity() {
    let (handle, tp_io) = ready_handle(21);
    assert!(handle.sync_suppressed);
    assert!(handle.registered);
    assert_eq!(tp_io.handle_id, 21);
}

#[test]
fn sync_completion_records_result_immediately() {
    let (handle, tp_io) = ready_handle(1);
    let (fut, disposition) =
        start_async_io(&tp_io, &handle, SubmissionOutcome::CompletedSynchronously { bytes: 5 });
    assert_eq!(disposition, StartDisposition::RetractAndReclaim);
    assert_eq!(fut.op.ownership, OverlappedOwnership::ConsumerOwned);
    assert_eq!(
        fut.op.state.result,
        Some(IocpResult { io_result: 0, number_of_bytes_transferred: 5 })
    );
}

#[test]
fn pending_submission_relinquishes_to_os() {
    let (handle, tp_io) = ready_handle(1);
    let (fut, disposition) = start_async_io(
        &tp_io,
        &handle,
        SubmissionOutcome::NoSynchronousResult { last_error: ERROR_IO_PENDING },
    );
    assert_eq!(disposition, StartDisposition::OwnedByOs);
    assert_eq!(fut.op.ownership, OverlappedOwnership::OsOwned);
    assert!(fut.op.state.result.is_none());
}

#[test]
fn sync_failure_records_error_immediately() {
    let (handle, tp_io) = ready_handle(1);
    let (fut, disposition) = start_async_io(
        &tp_io,
        &handle,
        SubmissionOutcome::NoSynchronousResult { last_error: 10061 },
    );
    assert_eq!(disposition, StartDisposition::RetractAndReclaim);
    assert_eq!(fut.op.ownership, OverlappedOwnership::ConsumerOwned);
    assert_eq!(
        fut.op.state.result.unwrap().get_number_of_bytes_transferred(),
        Err(IoError::Os(10061))
    );
}

#[test]
fn exactly_one_path_writes_the_result_slot() {
    // Synchronous path: the slot is written at submission and the
    // operation is no longer owned by the operating system, so the
    // callback path is out of the picture.
    let (handle, tp_io) = ready_handle(1);
    let (fut, _) =
        start_async_io(&tp_io, &handle, SubmissionOutcome::CompletedSynchronously { bytes: 9 });
    assert!(fut.op.state.result.is_some());
    assert_eq!(fut.op.ownership, OverlappedOwnership::ConsumerOwned);

    // Asynchronous path: the slot stays empty at submission and is written
    // exactly once, by the completion callback.
    let (mut fut, _) = start_async_io(
        &tp_io,
        &handle,
        SubmissionOutcome::NoSynchronousResult { last_error: ERROR_IO_PENDING },
    );
    assert!(fut.op.state.result.is_none());
    let _ = fut.op.process_iocp_completion(0, 9);
    assert!(fut.op.state.result.is_some());
    assert_eq!(fut.op.ownership, OverlappedOwnership::ConsumerOwned);
}

#[test]
fn poll_records_waker_and_completion_wakes_it() {
    let (handle, tp_io) = ready_handle(1);
    let (mut fut, _) = start_async_io(
        &tp_io,
        &handle,
        SubmissionOutcome::NoSynchronousResult { last_error: ERROR_IO_PENDING },
    );
    assert_eq!(fut.poll(7), IocpPoll::Pending);
    assert_eq!(fut.op.state.waker, Some(7));
    let wake = fut.op.process_iocp_completion(0, 12);
    assert_eq!(wake, Some(7));
    assert_eq!(
        fut.poll(7),
        IocpPoll::Ready(IocpResult { io_result: 0, number_of_bytes_transferred: 12 })
    );
}

#[test]
fn completion_without_waiter_wakes_nobody() {
    let (handle, tp_io) = ready_handle(1);
    let (mut fut, _) = start_async_io(
        &tp_io,
        &handle,
        SubmissionOutcome::NoSynchronousResult { last_error: ERROR_IO_PENDING },
    );
    let wake = fut.op.process_iocp_completion(0, 3);
    assert_eq!(wake, None);
}

#[test]
fn pending_then_zero_byte_completion_resolves_to_ok_zero() {
    let (handle, tp_io) = ready_handle(1);
    let r = run_bridged_operation(
        &tp_io,
        &handle,
        SubmissionOutcome::NoSynchronousResult { last_error: ERROR_IO_PENDING },
        Some(IocpResult { io_result: 0, number_of_bytes_transferred: 0 }),
        1,
    );
    assert_eq!(r, Some(Ok(0)));
}

#[test]
fn pending_without_completion_stays_in_flight() {
    let (handle, tp_io) = ready_handle(1);
    let r = run_bridged_operation(
        &tp_io,
        &handle,
        SubmissionOutcome::NoSynchronousResult { last_error: ERROR_IO_PENDING },
        None,
        1,
    );
    assert_eq!(r, None);
}

#[test]
fn pending_then_failed_completion_surfaces_error() {
    let (handle, tp_io) = ready_handle(1);
    let r = run_bridged_operation(
        &tp_io,
        &handle,
        SubmissionOutcome::NoSynchronousResult { last_error: ERROR_IO_PENDING },
        Some(IocpResult { io_result: 10053, number_of_bytes_transferred: 0 }),
        1,
    );
    assert_eq!(r, Some(Err(IoError::Os(10053))));
}

#[test]
fn sync_completion_resolves_without_callback() {
    let (handle, tp_io) = ready_handle(1);
    let r = run_bridged_operation(
        &tp_io,
        &handle,
        SubmissionOutcome::CompletedSynchronously { bytes: 17 },
        None,
        1,
    );
    assert_eq!(r, Some(Ok(17)));
}
