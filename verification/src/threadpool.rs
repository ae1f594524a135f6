//! The work-item scheduler: a future is packaged as a thread-pool work item
//! and polled from a pool callback, re-polled whenever its waker fires.

use vstd::prelude::*;

use crate::error::IoError;

verus! {

/// What one poll of the wrapped future reported.
#[derive(Clone, Copy, PartialEq, Eq, Structural, Debug)]
pub enum FuturePoll {
    Ready,
    Pending,
}

/// Where a work item stands in its life.
#[derive(Clone, Copy, PartialEq, Eq, Structural, Debug)]
pub enum WorkPhase {
    /// Submitted to the pool; the work callback will poll the future.
    Queued,
    /// The last poll reported pending; the item waits for its waker.
    Waiting,
    /// The future finished; the item must never be polled again.
    Done,
}

/// A future packaged for the pool: the native work object's address and the
/// item's place in its life.
#[derive(Clone, Copy, PartialEq, Eq, Structural, Debug)]
pub struct WorkItem {
    /// The native work object bound to the callback, as an address; never
    /// zero for a spawned item.
    pub native: u64,
    pub phase: WorkPhase,
}

/// The work callback may poll the future only while the item is queued for
/// it.
pub open spec fn work_poll_allowed(w: WorkItem) -> bool {
    w.phase is Queued
}

/// A finished work item is never polled again.
pub proof fn lemma_no_poll_after_done(w: WorkItem)
    requires
        w.phase is Done,
    ensures
        !work_poll_allowed(w),
{
}

impl WorkItem {
    /// The work callback's decision: poll the future once; a ready future
    /// finishes the item, a pending one leaves it waiting for its waker.
    pub fn process(&mut self, poll: FuturePoll)
        requires
            work_poll_allowed(*old(self)),
        ensures
            final(self).native == old(self).native,
            poll is Ready ==> final(self).phase is Done,
            poll is Pending ==> final(self).phase is Waiting,
    {
        match poll {
            FuturePoll::Ready => {
                self.phase = WorkPhase::Done;
            }
            FuturePoll::Pending => {
                self.phase = WorkPhase::Waiting;
            }
        }
    }

    /// The waker's decision: a waiting item must be resubmitted to the pool
    /// so the future is polled again; waking an item in any other phase
    /// changes nothing.
    pub fn wake(&mut self) -> (resubmit: bool)
        ensures
            final(self).native == old(self).native,
            old(self).phase is Waiting ==> final(self).phase is Queued && resubmit,
            !(old(self).phase is Waiting) ==> *final(self) == *old(self) && !resubmit,
    {
        match self.phase {
            WorkPhase::Waiting => {
                self.phase = WorkPhase::Queued;
                true
            }
            _ => false,
        }
    }
}

/// Package a future for the pool.  `create_result` is the native work
/// object the creation call produced, zero when it produced none, in which
/// case the extra reference taken for the foreign boundary is released and
/// the retrieved error code is returned.  A created item is submitted at
/// once, so it starts queued.
pub fn spawn(create_result: u64, last_error: u32) -> (r: Result<WorkItem, IoError>)
    ensures
        create_result == 0 ==> r == Err::<WorkItem, IoError>(IoError::Os(last_error)),
        create_result != 0 ==> {
            &&& r matches Ok(w)
            &&& w.native == create_result
            &&& w.phase is Queued
        },
{
    if create_result == 0 {
        Err(IoError::Os(last_error))
    } else {
        Ok(WorkItem { native: create_result, phase: WorkPhase::Queued })
    }
}

} // verus!
