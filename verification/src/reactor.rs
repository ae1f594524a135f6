//! The plain completion-port client: a handle is associated with a port,
//! an overlapped call is issued, and completion is awaited by dequeuing
//! from the port on the same thread.

use vstd::prelude::*;

use crate::error::IoError;
use crate::iocp_threadpool::ERROR_IO_PENDING;

verus! {

/// How an overlapped call left its operation.
#[derive(Clone, Copy, PartialEq, Eq, Structural, Debug)]
pub enum OverlappedResult {
    CompletedSynchronously,
    Pending,
}

/// Classify an overlapped call's return code.  A zero code is synchronous
/// completion; otherwise the error code retrieved for the call decides
/// between a pending operation and an immediate failure.
pub fn process_overlapped_return_code(rc: i32, wsa_last_error: u32) -> (r: Result<
    OverlappedResult,
    IoError,
>)
    ensures
        rc == 0 ==> r == Ok::<OverlappedResult, IoError>(OverlappedResult::CompletedSynchronously),
        rc != 0 && wsa_last_error == ERROR_IO_PENDING ==> r == Ok::<OverlappedResult, IoError>(
            OverlappedResult::Pending,
        ),
        rc != 0 && wsa_last_error != ERROR_IO_PENDING ==> r == Err::<OverlappedResult, IoError>(
            IoError::Os(wsa_last_error),
        ),
{
    if rc == 0 {
        Ok(OverlappedResult::CompletedSynchronously)
    } else if wsa_last_error == ERROR_IO_PENDING {
        Ok(OverlappedResult::Pending)
    } else {
        Err(IoError::Os(wsa_last_error))
    }
}

/// A completion port owned by this client, as the handle the creation call
/// produced.
#[derive(Clone, Copy, PartialEq, Eq, Structural, Debug)]
pub struct WindowsIoCompletionPort {
    pub handle: u64,
}

impl WindowsIoCompletionPort {
    /// Wrap the port the creation call produced; a zero handle is the
    /// call's failure, surfaced with the retrieved error code.
    pub fn new(create_result: u64, last_error: u32) -> (r: Result<
        WindowsIoCompletionPort,
        IoError,
    >)
        ensures
            create_result == 0 ==> r == Err::<WindowsIoCompletionPort, IoError>(
                IoError::Os(last_error),
            ),
            create_result != 0 ==> {
                &&& r matches Ok(p)
                &&& p.handle == create_result
            },
    {
        if create_result == 0 {
            Err(IoError::Os(last_error))
        } else {
            Ok(WindowsIoCompletionPort { handle: create_result })
        }
    }

    /// Set a freshly connected socket up for this port: associate it, then
    /// suppress synchronous-completion notifications on it.  The first
    /// failure aborts the setup and is returned unchanged; success returns
    /// the connected socket.
    pub fn connect_tcp_socket(
        &self,
        connect_result: Result<u64, u32>,
        associate_ok: bool,
        associate_err: u32,
        suppress_ok: bool,
        suppress_err: u32,
    ) -> (r: Result<u64, IoError>)
        ensures
            connect_result matches Err(e) ==> r == Err::<u64, IoError>(IoError::Os(e)),
            connect_result is Ok && !associate_ok ==> r == Err::<u64, IoError>(
                IoError::Os(associate_err),
            ),
            (connect_result is Ok && associate_ok && !suppress_ok) ==> r == Err::<u64, IoError>(
                IoError::Os(suppress_err),
            ),
            (connect_result is Ok && associate_ok && suppress_ok) ==> r == Ok::<u64, IoError>(
                connect_result->Ok_0,
            ),
    {
        let sock: u64 = match connect_result {
            Ok(s) => s,
            Err(e) => {
                return Err(IoError::Os(e));
            }
        };
        if !associate_ok {
            return Err(IoError::Os(associate_err));
        }
        if !suppress_ok {
            return Err(IoError::Os(suppress_err));
        }
        Ok(sock)
    }

    /// Issue one overlapped call and wait for its completion on this
    /// thread.  `rc` and `wsa_last_error` classify the call; `sync_bytes`
    /// is the count the call wrote when it completed synchronously;
    /// `dequeue` is what dequeuing from the port reported for a pending
    /// operation: the completed transfer's count, or the failure's code.
    pub fn wait_for_overlapped_synchronously(
        &self,
        rc: i32,
        wsa_last_error: u32,
        sync_bytes: u32,
        dequeue: Option<Result<u32, u32>>,
    ) -> (r: Result<u32, IoError>)
        requires
            (rc != 0 && wsa_last_error == ERROR_IO_PENDING) ==> dequeue is Some,
        ensures
            rc == 0 ==> r == Ok::<u32, IoError>(sync_bytes),
            (rc != 0 && wsa_last_error != ERROR_IO_PENDING) ==> r == Err::<u32, IoError>(
                IoError::Os(wsa_last_error),
            ),
            (rc != 0 && wsa_last_error == ERROR_IO_PENDING && dequeue is Some) ==> match dequeue->Some_0 {
                Ok(bytes) => r == Ok::<u32, IoError>(bytes),
                Err(e) => r == Err::<u32, IoError>(IoError::Os(e)),
            },
    {
        let classified = match process_overlapped_return_code(rc, wsa_last_error) {
            Ok(c) => c,
            Err(e) => {
                return Err(e);
            }
        };
        match classified {
            OverlappedResult::CompletedSynchronously => Ok(sync_bytes),
            OverlappedResult::Pending => match dequeue.unwrap() {
                Ok(bytes) => Ok(bytes),
                Err(e) => Err(IoError::Os(e)),
            },
        }
    }
}

} // verus!
