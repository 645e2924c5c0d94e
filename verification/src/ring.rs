//! What the library knows of the kernel rings: the entries it queues, and
//! how the outcome of a submit call is read.

use io_uring::squeue::Entry;
use std::collections::VecDeque;
use vstd::prelude::*;

verus! {

/// A submission entry of the `io_uring` crate. The library carries entries
/// through its queues and never looks inside one.
#[verifier::external_type_specification]
#[verifier::external_body]
pub struct ExEntry(io_uring::squeue::Entry);

/// The user data that an entry carries, as
/// `io_uring::squeue::Entry::get_user_data` reads it: the value that the
/// kernel hands back in the completion of the operation.
pub uninterp spec fn entry_user_data(entry: Entry) -> u64;

/// What `io_uring::squeue::Entry::user_data` makes of an entry and a value:
/// the same entry with the value stored as its user data.
pub uninterp spec fn tagged_entry(entry: Entry, user_data: u64) -> Entry;

/// What `io_uring::opcode::Close::new` and `build` make of a plain
/// descriptor: the entry that asks the kernel to close it.
pub uninterp spec fn close_request(fd: i32) -> Entry;

/// Calls `io_uring::squeue::Entry::user_data`, which stores `user_data` in
/// the entry and hands the entry back: the result carries `user_data`.
#[verifier::external_body]
fn tag_entry(entry: Entry, user_data: u64) -> (tagged: Entry)
    ensures
        tagged == tagged_entry(entry, user_data),
        entry_user_data(tagged) == user_data,
{
    entry.user_data(user_data)
}

/// Calls `io_uring::squeue::Entry::get_user_data`, which reads the user
/// data that the entry carries.
#[verifier::external_body]
fn read_user_data(entry: &Entry) -> (user_data: u64)
    ensures
        user_data == entry_user_data(*entry),
{
    entry.get_user_data()
}

/// Calls `io_uring::opcode::Close::new` on the plain descriptor `fd` and
/// `build` on the result: the entry that asks the kernel to close `fd`.
#[verifier::external_body]
pub(crate) fn close_entry(fd: i32) -> (entry: Entry)
    ensures
        entry == close_request(fd),
{
    io_uring::opcode::Close::new(io_uring::types::Fd(fd)).build()
}

/// Reads `libc::EBUSY`, the error number with which the kernel says that a
/// ring cannot take a submit right now. On Linux it is 16.
#[verifier::external_body]
pub(crate) fn busy_errno() -> (errno: i32)
    ensures
        errno == 16,
{
    libc::EBUSY
}

/// An entry that waits in memory for room in a ring. It carries its io-id
/// as user data.
pub struct Queued {
    io_id: usize,
    entry: Entry,
}

impl Queued {
    #[verifier::type_invariant]
    spec fn tagged(&self) -> bool {
        entry_user_data(self.entry) == self.io_id as u64
    }

    /// The io-id that the entry was tagged with.
    pub closed spec fn id(&self) -> usize {
        self.io_id
    }

    /// The tagged entry.
    pub closed spec fn payload(&self) -> Entry {
        self.entry
    }

    /// What queuing makes of an entry and the io-id issued for it.
    pub closed spec fn spec_new(entry: Entry, io_id: usize) -> Queued {
        Queued { io_id, entry: tagged_entry(entry, io_id as u64) }
    }

    /// A queued entry is the entry that was given, tagged with the io-id.
    pub proof fn lemma_spec_new(entry: Entry, io_id: usize)
        ensures
            Self::spec_new(entry, io_id).id() == io_id,
            Self::spec_new(entry, io_id).payload() == tagged_entry(entry, io_id as u64),
    {
    }

    /// Tags `entry` with `io_id`.
    pub fn new(entry: Entry, io_id: usize) -> (queued: Self)
        ensures
            queued == Self::spec_new(entry, io_id),
            queued.id() == io_id,
    {
        let entry = tag_entry(entry, io_id as u64);
        Queued { io_id, entry }
    }

    pub fn io_id(&self) -> (io_id: usize)
        ensures
            io_id == self.id(),
    {
        self.io_id
    }

    /// The user data that the kernel will hand back: the io-id.
    pub fn user_data(&self) -> (user_data: u64)
        ensures
            user_data == self.id() as u64,
    {
        proof {
            use_type_invariant(self);
        }
        read_user_data(&self.entry)
    }

    /// The entry to push into the ring; its user data is the io-id.
    pub fn entry(&self) -> (entry: &Entry)
        ensures
            *entry == self.payload(),
            entry_user_data(*entry) == self.id() as u64,
    {
        proof {
            use_type_invariant(self);
        }
        &self.entry
    }
}

/// How a submit call on a ring went.
#[derive(Clone, Copy, Debug, PartialEq, Eq, Structural)]
pub enum SubmitOutcome {
    /// The kernel took the entries.
    Submitted,
    /// The kernel was busy: what is queued stays queued for a later try.
    Busy,
    /// Any other error. Entries that may refer to live memory are in an
    /// unknown state, so the run cannot go on.
    Fatal,
}

/// What a submit call's result means, the error given by its raw OS error
/// number where it has one.
pub open spec fn spec_submit_outcome(result: Result<usize, Option<i32>>) -> SubmitOutcome {
    match result {
        Ok(_) => SubmitOutcome::Submitted,
        Err(Some(errno)) if errno == 16 => SubmitOutcome::Busy,
        Err(_) => SubmitOutcome::Fatal,
    }
}

/// Reads the result of a submit call: a busy kernel is a signal to retry,
/// every other error is fatal.
pub fn submit_outcome(result: Result<usize, Option<i32>>) -> (outcome: SubmitOutcome)
    ensures
        outcome == spec_submit_outcome(result),
{
    match result {
        Ok(_) => SubmitOutcome::Submitted,
        Err(Some(errno)) => {
            if errno == busy_errno() {
                SubmitOutcome::Busy
            } else {
                SubmitOutcome::Fatal
            }
        },
        Err(None) => SubmitOutcome::Fatal,
    }
}

/// The next thing to do while a queue is flushed into a ring.
pub enum SubmitStep {
    /// The ring's submission region is full: submit, then ask again with the
    /// outcome.
    Flush,
    /// Push this entry into the submission region, then ask again.
    Push(Queued),
    /// Nothing more to push: submit once, and stop whatever the outcome but
    /// a fatal one.
    FinalFlush,
    /// Nothing more to push and nothing to submit.
    Done,
}

/// How a flush of queued entries ends: with one last submit if it is forced
/// or the submission region holds anything.
pub open spec fn closing_step(force: bool, sq_empty: bool) -> SubmitStep {
    if force || !sq_empty {
        SubmitStep::FinalFlush
    } else {
        SubmitStep::Done
    }
}

/// What `next_submit_step` does to a queue and answers, given what it was
/// told: entries leave the queue front first; a busy kernel ends the
/// pushing and leaves the rest queued; a fatal outcome is an error.
pub open spec fn submit_step_rule(
    before: Seq<Queued>,
    after: Seq<Queued>,
    force: bool,
    sq_full: bool,
    sq_empty: bool,
    flushed: Option<SubmitOutcome>,
    step: Result<SubmitStep, Fault>,
) -> bool {
    if flushed == Some(SubmitOutcome::Fatal) {
        step == Err::<SubmitStep, Fault>(Fault::SubmitFailed) && after == before
    } else if flushed == Some(SubmitOutcome::Busy) || before.len() == 0 {
        step == Ok::<SubmitStep, Fault>(closing_step(force, sq_empty)) && after == before
    } else if flushed.is_none() && sq_full {
        step == Ok::<SubmitStep, Fault>(SubmitStep::Flush) && after == before
    } else {
        step == Ok::<SubmitStep, Fault>(SubmitStep::Push(before[0])) && after == before.subrange(
            1,
            before.len() as int,
        )
    }
}

/// One decision of a flush. `flushed` is the outcome of the submit that the
/// step before asked for with `Flush`, and `None` otherwise.
pub fn next_submit_step(
    queue: &mut VecDeque<Queued>,
    force: bool,
    sq_full: bool,
    sq_empty: bool,
    flushed: Option<SubmitOutcome>,
) -> (step: Result<SubmitStep, Fault>)
    ensures
        submit_step_rule(old(queue)@, final(queue)@, force, sq_full, sq_empty, flushed, step),
{
    match flushed {
        Some(SubmitOutcome::Fatal) => {
            return Err(Fault::SubmitFailed);
        },
        Some(SubmitOutcome::Busy) => {
            return Ok(closing_step_of(force, sq_empty));
        },
        Some(SubmitOutcome::Submitted) => {},
        None => {
            if queue.len() > 0 && sq_full {
                return Ok(SubmitStep::Flush);
            }
        },
    }
    match queue.pop_front() {
        Some(queued) => Ok(SubmitStep::Push(queued)),
        None => Ok(closing_step_of(force, sq_empty)),
    }
}

fn closing_step_of(force: bool, sq_empty: bool) -> (step: SubmitStep)
    ensures
        step == closing_step(force, sq_empty),
{
    if force || !sq_empty {
        SubmitStep::FinalFlush
    } else {
        SubmitStep::Done
    }
}

/// A broken invariant of the run. None can be recovered from: the caller
/// stops the process.
#[derive(Clone, Copy, Debug, PartialEq, Eq, Structural)]
pub enum Fault {
    /// A completion carried an io-id that is not outstanding.
    UnknownCompletion,
    /// A counter of outstanding work would fall below zero.
    CounterUnderflow,
    /// A counter of outstanding work would leave its range.
    CounterOverflow,
    /// The kernel refused a submit for a reason other than being busy.
    SubmitFailed,
}

} // verus!
