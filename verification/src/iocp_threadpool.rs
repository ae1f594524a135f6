//! The completion-bridging core: one overlapped operation per bridged call,
//! reconciled between synchronous and asynchronous completion.
//!
//! An operation is launched through an opaque call into the operating system.
//! The call either completes synchronously (it reports a byte count at once)
//! or it does not, in which case the last error code decides between
//! "pending" (a completion callback will fire later, possibly on another
//! thread) and immediate failure.  The functions here take those outcomes as
//! arguments and are verified to drive the shared operation state correctly
//! for every outcome.
//!
//! The callback runs on a foreign-owned stack, so the shell that hosts it
//! must never let a fault unwind across that boundary; it converts one to
//! unconditional process termination.  The verified functions themselves
//! cannot fault: they are proven free of panics.

use vstd::prelude::*;

use crate::error::IoError;

verus! {

/// The error code with which an overlapped call reports that it is still in
/// flight and will complete through the callback path.
pub const ERROR_IO_PENDING: u32 = 997;

/// The result of one I/O operation: the error code the completion reported
/// and the number of bytes it transferred.
#[derive(Clone, Copy, PartialEq, Eq, Structural, Debug)]
pub struct IocpResult {
    pub io_result: u32,
    pub number_of_bytes_transferred: usize,
}

/// What [`IocpResult::get_number_of_bytes_transferred`] returns: the byte
/// count on success, the reported code otherwise.
pub open spec fn transfer_result(r: IocpResult) -> Result<usize, IoError> {
    if r.io_result == 0 {
        Ok(r.number_of_bytes_transferred)
    } else {
        Err(IoError::Os(r.io_result))
    }
}

impl IocpResult {
    /// Returns an error if the operation failed, otherwise the number of
    /// bytes transferred.
    pub fn get_number_of_bytes_transferred(&self) -> (r: Result<usize, IoError>)
        ensures
            r == transfer_result(*self),
    {
        if self.io_result == 0 {
            Ok(self.number_of_bytes_transferred)
        } else {
            Err(IoError::Os(self.io_result))
        }
    }
}

/// The pair shared between the future and the completion path: the result
/// slot, absent until completion, and the notification slot, absent until a
/// consumer starts waiting.  A waiting consumer is represented by the token
/// its executor hands in; waking it is an action returned to the caller.
#[derive(Clone, Copy, PartialEq, Eq, Structural, Debug)]
pub struct IocpFutureState {
    pub result: Option<IocpResult>,
    pub waker: Option<u64>,
}

impl IocpFutureState {
    /// A fresh state: no result recorded, nobody waiting.
    pub fn new() -> (s: IocpFutureState)
        ensures
            s.result is None,
            s.waker is None,
    {
        IocpFutureState { result: None, waker: None }
    }
}

/// Who may touch the per-operation allocation at this moment.
#[derive(Clone, Copy, PartialEq, Eq, Structural, Debug)]
pub enum OverlappedOwnership {
    /// Handed to the operating system; only the completion callback may
    /// reclaim it.
    OsOwned,
    /// The result is known; the consumer side owns and releases it.
    ConsumerOwned,
}

/// The per-operation allocation: the overlapped descriptor's ownership tag
/// together with the shared result/notification pair.
#[derive(Clone, Copy, PartialEq, Eq, Structural, Debug)]
pub struct OverlappedAndIocpStateReference {
    pub ownership: OverlappedOwnership,
    pub state: IocpFutureState,
}

impl OverlappedAndIocpStateReference {
    /// The completion callback's work: record the reported code and byte
    /// count in the empty result slot, take the allocation back from the
    /// operating system, and hand any recorded waiting consumer to the
    /// caller to be woken.
    ///
    /// The preconditions are the exactly-once contract of the completion
    /// facility: the callback fires only for an operation that is still
    /// owned by the operating system, and fires once, so the slot is empty.
    pub fn process_iocp_completion(
        &mut self,
        io_result: u32,
        number_of_bytes_transferred: usize,
    ) -> (wake: Option<u64>)
        requires
            old(self).ownership is OsOwned,
            old(self).state.result is None,
        ensures
            final(self).state.result == Some(IocpResult { io_result, number_of_bytes_transferred }),
            final(self).state.waker == old(self).state.waker,
            final(self).ownership is ConsumerOwned,
            wake == old(self).state.waker,
    {
        self.state.result = Some(IocpResult { io_result, number_of_bytes_transferred });
        self.ownership = OverlappedOwnership::ConsumerOwned;
        self.state.waker
    }
}

/// What one poll of an [`IocpFuture`] reports.
#[derive(Clone, Copy, PartialEq, Eq, Structural, Debug)]
pub enum IocpPoll {
    Ready(IocpResult),
    Pending,
}

/// The future a bridged operation returns.  It stands for the consumer-side
/// reference to the shared state of exactly one operation.
#[derive(Clone, Copy, PartialEq, Eq, Structural, Debug)]
pub struct IocpFuture {
    pub op: OverlappedAndIocpStateReference,
}

impl IocpFuture {
    /// Report the result if the slot is already populated; otherwise record
    /// the caller's waker token and report that the operation is pending.
    pub fn poll(&mut self, waker: u64) -> (r: IocpPoll)
        ensures
            old(self).op.state.result matches Some(res) ==> {
                &&& r == IocpPoll::Ready(res)
                &&& *final(self) == *old(self)
            },
            old(self).op.state.result is None ==> {
                &&& r is Pending
                &&& final(self).op.state.result is None
                &&& final(self).op.state.waker == Some(waker)
                &&& final(self).op.ownership == old(self).op.ownership
            },
    {
        match self.op.state.result {
            Some(res) => IocpPoll::Ready(res),
            None => {
                self.op.state.waker = Some(waker);
                IocpPoll::Pending
            }
        }
    }
}

/// The per-handle configuration the bridge depends on: whether synchronous
/// completions have been suppressed on the handle, and whether the handle has
/// been registered with the completion facility.
#[derive(Clone, Copy, PartialEq, Eq, Structural, Debug)]
pub struct HandleState {
    /// The raw handle value, used only as an identity.
    pub id: u64,
    /// [`disable_callbacks_on_synchronous_completion`] has succeeded on
    /// this handle.
    pub sync_suppressed: bool,
    /// A completion registration exists for this handle.
    pub registered: bool,
}

impl HandleState {
    /// A handle fresh from the operating system: not yet configured.
    pub fn new(id: u64) -> (h: HandleState)
        ensures
            h.id == id,
            !h.sync_suppressed,
            !h.registered,
    {
        HandleState { id, sync_suppressed: false, registered: false }
    }
}

/// Disables completion notifications when an operation completes
/// synchronously.  This must succeed on a handle before any bridged
/// operation is started on it; otherwise both completion paths may write the
/// same result slot.
///
/// `call_succeeded` is what the configuration call reported; `last_error` is
/// the error code retrieved when it did not.
pub fn disable_callbacks_on_synchronous_completion(
    handle: &mut HandleState,
    call_succeeded: bool,
    last_error: u32,
) -> (r: Result<(), IoError>)
    ensures
        call_succeeded ==> {
            &&& r is Ok
            &&& final(handle).sync_suppressed
            &&& final(handle).id == old(handle).id
            &&& final(handle).registered == old(handle).registered
        },
        !call_succeeded ==> {
            &&& r == Err::<(), IoError>(IoError::Os(last_error))
            &&& *final(handle) == *old(handle)
        },
{
    if call_succeeded {
        handle.sync_suppressed = true;
        Ok(())
    } else {
        Err(IoError::Os(last_error))
    }
}

/// A completion registration: the handle is bound to the completion facility
/// and to its callback entry point for the registration's lifetime.
///
/// The registration must outlive every operation launched through it, and
/// must be released only once the handle is closed and all its operations
/// have completed; that obligation rests with the releasing caller and is
/// documented, not enforced here.
#[derive(Clone, Copy, PartialEq, Eq, Structural, Debug)]
pub struct Tpio {
    /// Identity of the handle this registration was created for.
    pub handle_id: u64,
}

impl Tpio {
    /// Register `handle` with the completion facility.  `created` is whether
    /// the registration call returned an object; `last_error` is the error
    /// code retrieved when it did not.
    ///
    /// A handle has at most one registration, so the handle must not be
    /// registered already.
    pub fn new(handle: &mut HandleState, created: bool, last_error: u32) -> (r: Result<Tpio, IoError>)
        requires
            !old(handle).registered,
        ensures
            created ==> {
                &&& r matches Ok(t) && t.handle_id == old(handle).id
                &&& final(handle).registered
                &&& final(handle).id == old(handle).id
                &&& final(handle).sync_suppressed == old(handle).sync_suppressed
            },
            !created ==> {
                &&& r == Err::<Tpio, IoError>(IoError::Os(last_error))
                &&& *final(handle) == *old(handle)
            },
    {
        if created {
            handle.registered = true;
            Ok(Tpio { handle_id: handle.id })
        } else {
            Err(IoError::Os(last_error))
        }
    }
}

/// What the caller-supplied overlapped call reported back.
#[derive(Clone, Copy, PartialEq, Eq, Structural, Debug)]
pub enum SubmissionOutcome {
    /// The call completed synchronously and transferred this many bytes.
    CompletedSynchronously { bytes: usize },
    /// The call reported no synchronous result; `last_error` decides between
    /// pending and immediate failure.
    NoSynchronousResult { last_error: u32 },
}

/// The submission left the operation in flight: the allocation stays with
/// the operating system until the completion callback fires.
pub open spec fn is_pending(outcome: SubmissionOutcome) -> bool {
    outcome matches SubmissionOutcome::NoSynchronousResult { last_error }
        && last_error == ERROR_IO_PENDING
}

/// The result recorded on the spot when the submission did not go pending.
pub open spec fn immediate_result(outcome: SubmissionOutcome) -> IocpResult {
    match outcome {
        SubmissionOutcome::CompletedSynchronously { bytes } => IocpResult {
            io_result: 0,
            number_of_bytes_transferred: bytes,
        },
        SubmissionOutcome::NoSynchronousResult { last_error } => IocpResult {
            io_result: last_error,
            number_of_bytes_transferred: 0,
        },
    }
}

/// What the caller must do with the per-operation allocation after
/// submission.
#[derive(Clone, Copy, PartialEq, Eq, Structural, Debug)]
pub enum StartDisposition {
    /// Pending: the allocation belongs to the operating system and the
    /// completion callback reclaims it.
    OwnedByOs,
    /// No completion callback will fire: retract the armed expectation and
    /// reclaim the allocation now.
    RetractAndReclaim,
}

/// A bridged operation may be started on a handle only through its own
/// registration, only once the handle is registered, and only once
/// synchronous-completion suppression has succeeded on it.
pub open spec fn bridged_start_allowed(handle: HandleState, tp_io: Tpio) -> bool {
    &&& handle.sync_suppressed
    &&& handle.registered
    &&& handle.id == tp_io.handle_id
}

/// No bridged operation can be started on a handle on which
/// synchronous-completion suppression has not succeeded.
pub proof fn lemma_no_start_without_suppression(handle: HandleState, tp_io: Tpio)
    requires
        !handle.sync_suppressed,
    ensures
        !bridged_start_allowed(handle, tp_io),
{
}

/// One observable event in the life of a handle.
#[derive(Clone, Copy, PartialEq, Eq, Structural, Debug)]
pub enum HandleEvent {
    /// Synchronous-completion suppression succeeded on the handle.
    SuppressSucceeded,
    /// A suppression attempt failed; the handle is unchanged.
    SuppressFailed,
    /// A completion registration was created for the handle.
    Registered,
    /// A bridged operation was started on the handle.
    OperationStarted,
}

/// The handle's configuration after one event.
pub open spec fn apply_handle_event(h: HandleState, e: HandleEvent) -> HandleState {
    match e {
        HandleEvent::SuppressSucceeded => HandleState {
            id: h.id,
            sync_suppressed: true,
            registered: h.registered,
        },
        HandleEvent::SuppressFailed => h,
        HandleEvent::Registered => HandleState {
            id: h.id,
            sync_suppressed: h.sync_suppressed,
            registered: true,
        },
        HandleEvent::OperationStarted => h,
    }
}

/// The handle's configuration after a history of events.
pub open spec fn handle_after(h0: HandleState, t: Seq<HandleEvent>) -> HandleState
    decreases t.len(),
{
    if t.len() == 0 {
        h0
    } else {
        apply_handle_event(handle_after(h0, t.drop_last()), t.last())
    }
}

/// Whether an event may happen to a handle in the given configuration:
/// a handle is registered at most once, and a bridged operation starts only
/// on a suppressed, registered handle.
pub open spec fn handle_event_allowed(h: HandleState, e: HandleEvent) -> bool {
    match e {
        HandleEvent::SuppressSucceeded => true,
        HandleEvent::SuppressFailed => true,
        HandleEvent::Registered => !h.registered,
        HandleEvent::OperationStarted => h.sync_suppressed && h.registered,
    }
}

/// A possible history of one handle: every event was allowed in the
/// configuration the earlier events left behind.
pub open spec fn valid_handle_trace(h0: HandleState, t: Seq<HandleEvent>) -> bool {
    forall|i: int|
        0 <= i < t.len() ==> handle_event_allowed(handle_after(h0, t.take(i)), #[trigger] t[i])
}

/// A handle becomes suppressed only through a successful suppression event.
pub proof fn lemma_suppressed_needs_event(h0: HandleState, t: Seq<HandleEvent>)
    requires
        !h0.sync_suppressed,
        handle_after(h0, t).sync_suppressed,
    ensures
        exists|j: int| 0 <= j < t.len() && #[trigger] t[j] is SuppressSucceeded,
    decreases t.len(),
{
    if t.len() > 0 {
        if t.last() is SuppressSucceeded {
            assert(t[t.len() - 1] is SuppressSucceeded);
        } else {
            lemma_suppressed_needs_event(h0, t.drop_last());
            let j = choose|j: int|
                0 <= j < t.drop_last().len() && #[trigger] t.drop_last()[j] is SuppressSucceeded;
            assert(t[j] is SuppressSucceeded);
        }
    }
}

/// In any possible history of a handle that starts unconfigured, every
/// start of a bridged operation is preceded by a successful suppression of
/// synchronous completions on that handle.
pub proof fn lemma_no_operation_before_suppression(h0: HandleState, t: Seq<HandleEvent>, i: int)
    requires
        !h0.sync_suppressed,
        valid_handle_trace(h0, t),
        0 <= i < t.len(),
        t[i] is OperationStarted,
    ensures
        exists|j: int| 0 <= j < i && #[trigger] t[j] is SuppressSucceeded,
{
    assert(handle_event_allowed(handle_after(h0, t.take(i)), t[i]));
    lemma_suppressed_needs_event(h0, t.take(i));
    let j = choose|j: int| 0 <= j < t.take(i).len() && #[trigger] t.take(i)[j] is SuppressSucceeded;
    assert(t[j] is SuppressSucceeded);
}

/// Start one overlapped operation.  `outcome` is what the caller-supplied
/// overlapped call reported, together with the error code retrieved when it
/// reported nothing.
///
/// Exactly one of three things happens, decided by the outcome alone:
/// synchronous completion or immediate failure record the result on the spot
/// and the allocation is reclaimed by this path; a pending submission
/// relinquishes the allocation to the operating system and the result slot
/// stays empty for the completion callback.
pub fn start_async_io(
    tp_io: &Tpio,
    handle: &HandleState,
    outcome: SubmissionOutcome,
) -> (r: (IocpFuture, StartDisposition))
    requires
        bridged_start_allowed(*handle, *tp_io),
    ensures
        is_pending(outcome) ==> {
            &&& r.0.op.ownership is OsOwned
            &&& r.0.op.state.result is None
            &&& r.0.op.state.waker is None
            &&& r.1 is OwnedByOs
        },
        !is_pending(outcome) ==> {
            &&& r.0.op.ownership is ConsumerOwned
            &&& r.0.op.state.result == Some(immediate_result(outcome))
            &&& r.0.op.state.waker is None
            &&& r.1 is RetractAndReclaim
        },
{
    let rc: IocpResult = match outcome {
        SubmissionOutcome::CompletedSynchronously { bytes } => IocpResult {
            io_result: 0,
            number_of_bytes_transferred: bytes,
        },
        SubmissionOutcome::NoSynchronousResult { last_error } => IocpResult {
            io_result: last_error,
            number_of_bytes_transferred: 0,
        },
    };
    if rc.io_result == ERROR_IO_PENDING {
        let op = OverlappedAndIocpStateReference {
            ownership: OverlappedOwnership::OsOwned,
            state: IocpFutureState::new(),
        };
        (IocpFuture { op }, StartDisposition::OwnedByOs)
    } else {
        let op = OverlappedAndIocpStateReference {
            ownership: OverlappedOwnership::ConsumerOwned,
            state: IocpFutureState { result: Some(rc), waker: None },
        };
        (IocpFuture { op }, StartDisposition::RetractAndReclaim)
    }
}

/// The lifecycle of one bridged operation.
#[derive(Clone, Copy, PartialEq, Eq, Structural, Debug)]
pub enum OperationPhase {
    /// No operation launched yet.
    Idle,
    /// The allocation exists, the completion slot is armed, and the
    /// overlapped call has been issued.
    Submitted,
    /// The call reported a byte count directly; the result was recorded by
    /// the submitting path.
    SyncCompleted,
    /// The call went pending; the allocation belongs to the operating
    /// system.
    Pending,
    /// The call failed on the spot; the error was recorded by the
    /// submitting path.
    SyncFailed,
    /// The completion callback recorded the result of a pending operation.
    Completed,
}

/// The transitions an operation may take.
pub open spec fn phase_step_allowed(from: OperationPhase, to: OperationPhase) -> bool {
    ||| (from is Idle && to is Submitted)
    ||| (from is Submitted && (to is SyncCompleted || to is Pending || to is SyncFailed))
    ||| (from is Pending && to is Completed)
}

/// The transitions that write the operation's result slot.
pub open spec fn step_writes_result(from: OperationPhase, to: OperationPhase) -> bool {
    ||| (from is Submitted && (to is SyncCompleted || to is SyncFailed))
    ||| (from is Pending && to is Completed)
}

/// A phase from which no further transition exists: the operation is over
/// and its result is recorded.
pub open spec fn terminal_phase(p: OperationPhase) -> bool {
    p is SyncCompleted || p is SyncFailed || p is Completed
}

/// A possible history of one operation: it starts idle and takes only
/// allowed transitions.
pub open spec fn valid_phase_trace(t: Seq<OperationPhase>) -> bool {
    &&& t.len() >= 1
    &&& t[0] is Idle
    &&& forall|i: int| 0 <= i < t.len() - 1 ==> phase_step_allowed(#[trigger] t[i], t[i + 1])
}

/// How many transitions of a history wrote the result slot.
pub open spec fn result_writes(t: Seq<OperationPhase>) -> nat
    decreases t.len(),
{
    if t.len() <= 1 {
        0
    } else {
        result_writes(t.drop_last()) + if step_writes_result(t[t.len() - 2], t[t.len() - 1]) {
            1nat
        } else {
            0nat
        }
    }
}

/// In any possible history, the result slot has been written exactly once if
/// the operation is over, and not at all while it is not.
pub proof fn lemma_result_written_iff_terminal(t: Seq<OperationPhase>)
    requires
        valid_phase_trace(t),
    ensures
        result_writes(t) == if terminal_phase(t.last()) {
            1nat
        } else {
            0nat
        },
    decreases t.len(),
{
    if t.len() > 1 {
        assert(valid_phase_trace(t.drop_last()));
        lemma_result_written_iff_terminal(t.drop_last());
        assert(phase_step_allowed(t[t.len() - 2], t[t.len() - 1]));
    }
}

/// Exactly one of the synchronous and asynchronous completion paths writes
/// the result slot of a finished operation.
pub proof fn lemma_exactly_one_result_write(t: Seq<OperationPhase>)
    requires
        valid_phase_trace(t),
        terminal_phase(t.last()),
    ensures
        result_writes(t) == 1,
{
    lemma_result_written_iff_terminal(t);
}

/// The phase a submission leaves the operation in, decided by the call's
/// outcome alone.
pub open spec fn phase_after_submission(outcome: SubmissionOutcome) -> OperationPhase {
    if is_pending(outcome) {
        OperationPhase::Pending
    } else if outcome is CompletedSynchronously {
        OperationPhase::SyncCompleted
    } else {
        OperationPhase::SyncFailed
    }
}

/// Every submission outcome takes the operation to a phase the machine
/// allows, and the submitting path writes the result exactly when the
/// outcome is not pending.
pub proof fn lemma_submission_follows_machine(outcome: SubmissionOutcome)
    ensures
        phase_step_allowed(OperationPhase::Submitted, phase_after_submission(outcome)),
        step_writes_result(OperationPhase::Submitted, phase_after_submission(outcome))
            <==> !is_pending(outcome),
{
}

/// Drive one bridged operation from submission to its result.
///
/// `completion` is the completion callback's event, if one has fired.  The
/// result is `None` exactly when the operation is still in flight: the
/// submission went pending and no completion has arrived yet.
pub fn run_bridged_operation(
    tp_io: &Tpio,
    handle: &HandleState,
    outcome: SubmissionOutcome,
    completion: Option<IocpResult>,
    waker: u64,
) -> (r: Option<Result<usize, IoError>>)
    requires
        bridged_start_allowed(*handle, *tp_io),
    ensures
        !is_pending(outcome) ==> r == Some(transfer_result(immediate_result(outcome))),
        (is_pending(outcome) && completion is Some) ==> r == Some(
            transfer_result(completion->Some_0),
        ),
        is_pending(outcome) && completion is None ==> r is None,
{
    let (mut fut, _disposition) = start_async_io(tp_io, handle, outcome);
    if fut.op.ownership == OverlappedOwnership::OsOwned {
        match completion {
            Some(res) => {
                let _wake = fut.op.process_iocp_completion(
                    res.io_result,
                    res.number_of_bytes_transferred,
                );
            }
            None => {}
        }
    }
    match fut.poll(waker) {
        IocpPoll::Ready(res) => Some(res.get_number_of_bytes_transferred()),
        IocpPoll::Pending => None,
    }
}

} // verus!
