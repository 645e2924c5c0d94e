//! The course of one kernel operation, as the task that awaits it sees it.

use crate::context::{Polled, TaskContext};
use io_uring::squeue::Entry;
use vstd::prelude::*;

verus! {

/// What a completion result means: a negative result is a negated error
/// number, any other is the operation's own success value.
pub open spec fn spec_io_outcome(result: i32) -> Result<u32, u32> {
    if result < 0 {
        Err((-result) as u32)
    } else {
        Ok(result as u32)
    }
}

/// Reads a completion result: `Err` with the error number for a negative
/// one, `Ok` with the value otherwise.
pub fn io_outcome(result: i32) -> (outcome: Result<u32, u32>)
    ensures
        outcome == spec_io_outcome(result),
{
    if result < 0 {
        let errno: i64 = 0 - (result as i64);
        Err(errno as u32)
    } else {
        Ok(result as u32)
    }
}

/// An operation that is queued at most once and resolves when its result
/// has been taken.
pub struct Operation {
    io_id: Option<usize>,
}

impl Operation {
    /// The io-id under which the operation was queued, once it was.
    pub closed spec fn io_id(&self) -> Option<usize> {
        self.io_id
    }

    pub fn new() -> (op: Self)
        ensures
            op.io_id().is_none(),
    {
        Operation { io_id: None }
    }

    pub fn started(&self) -> (started: bool)
        ensures
            started == self.io_id().is_some(),
    {
        self.io_id.is_some()
    }

    /// Queues `entry` for the current task and remembers the io-id.
    pub fn start<T, V>(&mut self, cx: &mut TaskContext<T, V>, entry: Entry, direct_io: bool)
        requires
            old(self).io_id().is_none(),
            direct_io ==> old(cx)@.direct_in_flight < usize::MAX,
        ensures
            final(self).io_id() == Some(old(cx)@.io_issued as usize),
            final(cx)@ == old(cx)@.queue_io(entry, direct_io),
    {
        let io_id = cx.queue_io(entry, direct_io);
        self.io_id = Some(io_id);
    }

    /// Asks for the result: pending until the operation was queued and a
    /// completion has posted its result, which is then taken and read.
    pub fn poll<T, V>(&self, cx: &mut TaskContext<T, V>) -> (polled: Polled<Result<u32, u32>>)
        ensures
            match self.io_id() {
                None => polled == Polled::<Result<u32, u32>>::Pending && final(cx)@ == old(cx)@,
                Some(io_id) => {
                    &&& final(cx)@ == old(cx)@.take_io_result(io_id)
                    &&& polled == match old(cx)@.posted(io_id) {
                        Some(result) => Polled::Ready(spec_io_outcome(result)),
                        None => Polled::<Result<u32, u32>>::Pending,
                    }
                },
            },
    {
        match self.io_id {
            None => Polled::Pending,
            Some(io_id) => match cx.take_io_result(io_id) {
                Some(result) => Polled::Ready(io_outcome(result)),
                None => Polled::Pending,
            },
        }
    }
}

} // verus!
