//! Stream-side operations: the submission decision shared by the overlapped
//! send and receive calls, connection setup, and the multi-call write loop.

use vstd::prelude::*;

use crate::error::IoError;
use crate::iocp_threadpool::{
    bridged_start_allowed, disable_callbacks_on_synchronous_completion, run_bridged_operation,
    transfer_result, HandleState, IocpResult, SubmissionOutcome, Tpio, ERROR_IO_PENDING,
};

verus! {

/// A connected stream: its handle, configured for bridged operations, and
/// the completion registration every operation on it goes through.
#[derive(Clone, Copy, PartialEq, Eq, Structural, Debug)]
pub struct AsyncTcpStream {
    pub handle: HandleState,
    pub tp_io: Tpio,
}

impl AsyncTcpStream {
    /// A usable stream: suppression succeeded, the handle is registered,
    /// and the registration is the handle's own.
    pub open spec fn wf(self) -> bool {
        bridged_start_allowed(self.handle, self.tp_io)
    }

    /// Wrap a freshly connected or accepted socket: suppress synchronous
    /// completion notifications, then register the handle with the
    /// completion facility.
    ///
    /// `suppress_ok`/`suppress_err` are the outcome of the suppression call;
    /// `tpio_created`/`tpio_err` the outcome of the registration call.  The
    /// first failure aborts the setup and is returned unchanged.
    pub fn new(
        handle: HandleState,
        suppress_ok: bool,
        suppress_err: u32,
        tpio_created: bool,
        tpio_err: u32,
    ) -> (r: Result<AsyncTcpStream, IoError>)
        requires
            !handle.registered,
        ensures
            !suppress_ok ==> r == Err::<AsyncTcpStream, IoError>(IoError::Os(suppress_err)),
            suppress_ok && !tpio_created ==> r == Err::<AsyncTcpStream, IoError>(
                IoError::Os(tpio_err),
            ),
            suppress_ok && tpio_created ==> {
                &&& r matches Ok(s)
                &&& s.wf()
                &&& s.handle.id == handle.id
            },
    {
        let mut h = handle;
        match disable_callbacks_on_synchronous_completion(&mut h, suppress_ok, suppress_err) {
            Ok(()) => {}
            Err(e) => {
                return Err(e);
            }
        }
        match Tpio::new(&mut h, tpio_created, tpio_err) {
            Ok(tp_io) => Ok(AsyncTcpStream { handle: h, tp_io }),
            Err(e) => Err(e),
        }
    }

    /// Open a connection: `connect_result` is the socket the blocking
    /// connect call produced, or the error code it failed with; the
    /// remaining arguments are the setup outcomes passed on to
    /// [`AsyncTcpStream::new`].
    pub fn connect(
        connect_result: Result<u64, u32>,
        suppress_ok: bool,
        suppress_err: u32,
        tpio_created: bool,
        tpio_err: u32,
    ) -> (r: Result<AsyncTcpStream, IoError>)
        ensures
            connect_result matches Err(e) ==> r == Err::<AsyncTcpStream, IoError>(IoError::Os(e)),
            connect_result matches Ok(sock) ==> {
                &&& !suppress_ok ==> r == Err::<AsyncTcpStream, IoError>(IoError::Os(suppress_err))
                &&& suppress_ok && !tpio_created ==> r == Err::<AsyncTcpStream, IoError>(
                    IoError::Os(tpio_err),
                )
                &&& suppress_ok && tpio_created ==> {
                    &&& r matches Ok(s)
                    &&& s.wf()
                    &&& s.handle.id == sock
                }
            },
    {
        match connect_result {
            Ok(sock) => AsyncTcpStream::new(
                HandleState::new(sock),
                suppress_ok,
                suppress_err,
                tpio_created,
                tpio_err,
            ),
            Err(e) => Err(IoError::Os(e)),
        }
    }
}

/// What a single overlapped send or receive resolves to, given what the
/// call itself reported and — when it went pending — what the completion
/// callback delivered: the transferred count on success, the reported code
/// as an error otherwise, or nothing while the operation is still in
/// flight.
pub open spec fn single_transfer_spec(
    call_succeeded: bool,
    transferred: u32,
    last_error: u32,
    completion: Option<IocpResult>,
) -> Option<Result<usize, IoError>> {
    if call_succeeded {
        Some(Ok(transferred as usize))
    } else if last_error != ERROR_IO_PENDING {
        if last_error == 0 {
            Some(Ok(0))
        } else {
            Some(Err(IoError::Os(last_error)))
        }
    } else if completion is Some {
        Some(transfer_result(completion->Some_0))
    } else {
        None
    }
}

impl AsyncTcpStream {
    /// Issue one overlapped send through the bridge and translate what it
    /// came to.  `call_succeeded`, `sent` and `last_error` are what the
    /// send call reported; `completion` is the callback's event for a
    /// pending send, if one has fired; `waker` identifies the polling
    /// consumer.
    pub fn poll_write(
        &self,
        call_succeeded: bool,
        sent: u32,
        last_error: u32,
        completion: Option<IocpResult>,
        waker: u64,
    ) -> (r: Option<Result<usize, IoError>>)
        requires
            self.wf(),
        ensures
            r == single_transfer_spec(call_succeeded, sent, last_error, completion),
    {
        let outcome = overlapped_call_outcome(call_succeeded, sent, last_error);
        run_bridged_operation(&self.tp_io, &self.handle, outcome, completion, waker)
    }

    /// Issue one overlapped receive through the bridge and translate what
    /// it came to; the arguments read as in [`AsyncTcpStream::poll_write`],
    /// with `received` what the receive call reported synchronously.
    pub fn poll_read(
        &self,
        call_succeeded: bool,
        received: u32,
        last_error: u32,
        completion: Option<IocpResult>,
        waker: u64,
    ) -> (r: Option<Result<usize, IoError>>)
        requires
            self.wf(),
        ensures
            r == single_transfer_spec(call_succeeded, received, last_error, completion),
    {
        let outcome = overlapped_call_outcome(call_succeeded, received, last_error);
        run_bridged_operation(&self.tp_io, &self.handle, outcome, completion, waker)
    }
}

/// The decision inside every overlapped send, receive and accept closure:
/// a call that succeeded on the spot reports its transferred count as a
/// synchronous completion; one that did not hands over the error code
/// retrieved for it.
pub fn overlapped_call_outcome(call_succeeded: bool, transferred: u32, last_error: u32) -> (o:
    SubmissionOutcome)
    ensures
        call_succeeded ==> o == (SubmissionOutcome::CompletedSynchronously {
            bytes: transferred as usize,
        }),
        !call_succeeded ==> o == (SubmissionOutcome::NoSynchronousResult { last_error }),
{
    if call_succeeded {
        SubmissionOutcome::CompletedSynchronously { bytes: transferred as usize }
    } else {
        SubmissionOutcome::NoSynchronousResult { last_error }
    }
}

/// What one write call of a multi-call write reported: a byte count, or an
/// operating-system failure.
#[derive(Clone, Copy, PartialEq, Eq, Structural, Debug)]
pub enum WriteStep {
    Sent(usize),
    Failed(u32),
}

/// The verdict of the multi-call write loop over the write results it saw,
/// with `remaining` bytes still owed when the first of them arrived.
/// `None` means every result was consumed with bytes still owed: the
/// operation is not finished.
///
/// A write that reports zero bytes sent is the peer disconnecting; a
/// reported count never exceeds what was asked of the call, so a count of
/// at least `remaining` settles the last call exactly.
pub open spec fn write_all_spec(remaining: nat, steps: Seq<WriteStep>) -> Option<
    Result<(), IoError>,
>
    decreases steps.len(),
{
    if remaining == 0 {
        Some(Ok(()))
    } else if steps.len() == 0 {
        None
    } else {
        match steps[0] {
            WriteStep::Failed(e) => Some(Err(IoError::Os(e))),
            WriteStep::Sent(n) => if n == 0 {
                Some(Err(IoError::Disconnected))
            } else if n >= remaining {
                Some(Ok(()))
            } else {
                write_all_spec((remaining - n) as nat, steps.drop_first())
            },
        }
    }
}

/// The bytes the loop accounted as sent before it stopped.
pub open spec fn write_all_bytes(remaining: nat, steps: Seq<WriteStep>) -> nat
    decreases steps.len(),
{
    if remaining == 0 {
        0
    } else if steps.len() == 0 {
        0
    } else {
        match steps[0] {
            WriteStep::Failed(e) => 0,
            WriteStep::Sent(n) => if n == 0 {
                0
            } else if n >= remaining {
                remaining
            } else {
                (n + write_all_bytes((remaining - n) as nat, steps.drop_first())) as nat
            },
        }
    }
}

/// A multi-call write that reports success has transferred exactly the
/// bytes it owed — never fewer — and one that stops early has transferred
/// strictly fewer.
pub proof fn lemma_write_all_exact(remaining: nat, steps: Seq<WriteStep>)
    ensures
        write_all_spec(remaining, steps) == Some(Ok::<(), IoError>(())) ==> write_all_bytes(
            remaining,
            steps,
        ) == remaining,
        write_all_spec(remaining, steps) != Some(Ok::<(), IoError>(())) ==> write_all_bytes(
            remaining,
            steps,
        ) < remaining || remaining == 0,
    decreases steps.len(),
{
    if remaining != 0 && steps.len() != 0 {
        match steps[0] {
            WriteStep::Failed(e) => {}
            WriteStep::Sent(n) => {
                if 0 < n < remaining {
                    lemma_write_all_exact((remaining - n) as nat, steps.drop_first());
                }
            }
        }
    }
}

impl AsyncTcpStream {
    /// Send a whole payload of `len` bytes through repeated write calls on
    /// this stream, each advancing an offset by the count it reported.
    /// `steps` are the write results in order; a zero count is surfaced as
    /// the distinct disconnection error, and `None` is returned if the
    /// results run out with bytes still owed.
    pub fn write_all(&self, len: usize, steps: &Vec<WriteStep>) -> (r: Option<
        Result<(), IoError>,
    >)
        requires
            self.wf(),
        ensures
            r == write_all_spec(len as nat, steps@),
            r == Some(Ok::<(), IoError>(())) ==> write_all_bytes(len as nat, steps@) == len,
    {
        let mut remaining: usize = len;
        let mut i: usize = 0;
        proof {
            assert(steps@.skip(0) =~= steps@);
        }
        loop
            invariant
                i <= steps.len(),
                remaining <= len,
                write_all_spec(len as nat, steps@) == write_all_spec(
                    remaining as nat,
                    steps@.skip(i as int),
                ),
                remaining == 0 ==> i <= steps.len(),
            decreases steps.len() - i,
        {
            if remaining == 0 {
                proof {
                    lemma_write_all_exact(len as nat, steps@);
                }
                return Some(Ok(()));
            }
            if i >= steps.len() {
                return None;
            }
            proof {
                assert(steps@.skip(i as int)[0] == steps@[i as int]);
                assert(steps@.skip(i as int).drop_first() =~= steps@.skip(i as int + 1));
            }
            match steps[i] {
                WriteStep::Failed(e) => {
                    return Some(Err(IoError::Os(e)));
                }
                WriteStep::Sent(n) => {
                    if n == 0 {
                        return Some(Err(IoError::Disconnected));
                    } else if n >= remaining {
                        remaining = 0;
                    } else {
                        remaining = remaining - n;
                    }
                }
            }
            i = i + 1;
        }
    }
}

} // verus!
