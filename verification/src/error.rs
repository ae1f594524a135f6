//! Error values surfaced by the runtime.
//!
//! Every recoverable failure is either an operating-system error code carried
//! through unchanged, or the distinct "peer disconnected" condition detected
//! during a multi-call write.

use vstd::prelude::*;

verus! {

/// A recoverable I/O failure.
#[derive(Clone, Copy, PartialEq, Eq, Structural, Debug)]
pub enum IoError {
    /// The operating system reported this error code.
    Os(u32),
    /// A write reported zero bytes sent: the peer has disconnected.
    Disconnected,
}

/// Errors of the blocking client built on the same socket primitives.
#[derive(Clone, Copy, PartialEq, Eq, Structural, Debug)]
pub enum MyError {
    /// An underlying I/O failure.
    IoError(IoError),
    /// A single write sent fewer bytes than the whole request.
    ShortWrite,
    /// The completion port itself could not be created.
    IocpCreationFailed(IoError),
    /// A handle could not be associated with the completion port.
    IocpAssociationFailed(IoError),
}

impl core::convert::From<IoError> for MyError {
    /// An underlying I/O failure carried into the client's error space.
    fn from(e: IoError) -> (r: MyError) {
        MyError::IoError(e)
    }
}

impl vstd::std_specs::convert::FromSpecImpl<IoError> for MyError {
    open spec fn obeys_from_spec() -> bool {
        true
    }

    open spec fn from_spec(e: IoError) -> MyError {
        MyError::IoError(e)
    }
}

/// A write of `written` bytes fully covers a request of `expected` bytes,
/// or the request must be reported as cut short.
pub fn check_full_write(written: usize, expected: usize) -> (r: Result<(), MyError>)
    ensures
        r is Ok <==> written == expected,
        r is Err ==> r == Err::<(), MyError>(MyError::ShortWrite),
{
    if written == expected {
        Ok(())
    } else {
        Err(MyError::ShortWrite)
    }
}

} // verus!
