//! The scheduler: the state of one run and the phases of its loop.
//!
//! One turn of the loop waits while nothing can make progress
//! (`should_wait`, `idle_pass`), polls the ready tasks (`begin_round`,
//! `poll_next`, `round_expired`), flushes both queues into their rings
//! (`next_submission`), takes in the completions (`complete`), fires the
//! timers (`fire_timers`) and queues the deferred closes
//! (`enqueue_closes`), until the run is `finished`. `Executor::step` makes
//! the turns in that order.

use crate::context::{ContextModel, IoRecord, Polled, Task, TaskCell, TaskContext, elapsed};
use crate::ready::ReadySet;
use crate::ring::{
    close_entry, close_request, next_submit_step, submit_step_rule, Fault, Queued,
    SubmitOutcome, SubmitStep,
};
use crate::slab::Slab;
use crate::timers::{elapsed_tasks, notify_timers, still_pending, DeadlineSet};
use io_uring::squeue::Entry;
use std::collections::VecDeque;
use std::time::Duration;
use vstd::prelude::*;

verus! {

/// The options of a run.
#[derive(Clone, Copy, Debug)]
pub struct ExecutorConfig {
    ring_depth: u32,
    preempt_duration: u64,
}

/// The length of a duration in nanoseconds, as
/// `std::time::Duration::as_nanos` gives it.
pub uninterp spec fn duration_nanos(duration: Duration) -> u128;

/// Calls `std::time::Duration::as_nanos`, which returns the total number
/// of nanoseconds that the duration holds.
#[verifier::external_body]
fn as_nanos(duration: &Duration) -> (nanos: u128)
    ensures
        nanos == duration_nanos(*duration),
{
    duration.as_nanos()
}

/// A number of nanoseconds as a budget: the longest budget stands for
/// every longer one.
pub open spec fn spec_budget_from_nanos(nanos: u128) -> u64 {
    if nanos > u64::MAX {
        u64::MAX
    } else {
        nanos as u64
    }
}

/// Brings a number of nanoseconds into the range of a budget.
pub fn budget_from_nanos(nanos: u128) -> (budget: u64)
    ensures
        budget == spec_budget_from_nanos(nanos),
{
    if nanos > u64::MAX as u128 {
        u64::MAX
    } else {
        nanos as u64
    }
}

/// The number of idle passes after which the caller sleeps for a moment.
pub const IDLE_PASSES: u32 = 16;

impl ExecutorConfig {
    /// The depth that each ring is built with.
    pub closed spec fn depth(&self) -> u32 {
        self.ring_depth
    }

    /// The preemption budget, in nanoseconds.
    pub closed spec fn budget(&self) -> u64 {
        self.preempt_duration
    }

    /// Rings of depth 64 and a preemption budget of 10 ms.
    pub fn new() -> (config: Self)
        ensures
            config.depth() == 64,
            config.budget() == 10_000_000,
    {
        ExecutorConfig { ring_depth: 64, preempt_duration: 10_000_000 }
    }

    /// Sets the depth of both rings.
    pub fn ring_depth(self, ring_depth: u32) -> (config: Self)
        ensures
            config.depth() == ring_depth,
            config.budget() == self.budget(),
    {
        ExecutorConfig { ring_depth, preempt_duration: self.preempt_duration }
    }

    /// Sets the preemption budget.
    pub fn preempt_duration(self, preempt_duration: Duration) -> (config: Self)
        ensures
            config.depth() == self.depth(),
            config.budget() == spec_budget_from_nanos(duration_nanos(preempt_duration)),
    {
        let nanos = budget_from_nanos(as_nanos(&preempt_duration));
        ExecutorConfig { ring_depth: self.ring_depth, preempt_duration: nanos }
    }

    /// Sets the preemption budget, in nanoseconds.
    pub fn preempt_nanos(self, nanos: u64) -> (config: Self)
        ensures
            config.depth() == self.depth(),
            config.budget() == nanos,
    {
        ExecutorConfig { ring_depth: self.ring_depth, preempt_duration: nanos }
    }

    /// The depth that each ring is built with.
    pub fn get_ring_depth(&self) -> (depth: u32)
        ensures
            depth == self.depth(),
    {
        self.ring_depth
    }

    /// The preemption budget, in nanoseconds.
    pub fn get_preempt_nanos(&self) -> (budget: u64)
        ensures
            budget == self.budget(),
    {
        self.preempt_duration
    }

    /// Begins a run of `root`: the executor in its first state, with the
    /// record that stands for the deferred closes, and the root task
    /// marked ready. The caller drives it from there.
    pub fn run<T: Task<V>, V>(self, root: T) -> (executor: Executor<T, V>)
        ensures
            executor@ == ExecutorModel::<T, V>::begin(self.budget(), root),
    {
        let mut tasks: Slab<TaskCell<T>> = Slab::new();
        let mut io: Slab<IoRecord> = Slab::new();
        let mut outputs: Slab<Option<V>> = Slab::new();
        let mut to_notify = ReadySet::new();
        let close_file_task_id = tasks.insert(TaskCell { parent: None, slot: None, body: None });
        let close_file_io_id = io.insert(
            IoRecord { task: close_file_task_id, direct: false, result: None },
        );
        let root_slot = outputs.insert(None);
        let task_id = tasks.insert(TaskCell { parent: None, slot: Some(root_slot), body: Some(root) });
        to_notify.insert(task_id);
        let io_queue: VecDeque<Queued> = VecDeque::new();
        let dio_queue: VecDeque<Queued> = VecDeque::new();
        let notifying: VecDeque<usize> = VecDeque::new();
        let executor = Executor {
            cx: TaskContext {
                start: 0,
                task_id: close_file_task_id,
                preempt_duration: self.preempt_duration,
                tasks,
                outputs,
                io,
                io_queue,
                dio_queue,
                to_notify,
                notify_when: DeadlineSet::new(),
                num_dio_running: 0,
                files_to_close: Vec::new(),
            },
            notifying,
            close_file_task_id,
            close_file_io_id,
            root_slot,
            files_closing: 0,
            idle_passes: 0,
            phase: Phase::Head,
        };
        proof {
            let m = ExecutorModel::<T, V>::begin(self.budget(), root);
            assert(executor@.cx.tasks =~= m.cx.tasks);
        }
        executor
    }
}

impl Default for ExecutorConfig {
    fn default() -> (config: Self)
        ensures
            config.depth() == 64,
            config.budget() == 10_000_000,
    {
        ExecutorConfig::new()
    }
}

/// The state of one run.
pub struct Executor<T, V> {
    cx: TaskContext<T, V>,
    notifying: VecDeque<usize>,
    close_file_task_id: usize,
    close_file_io_id: usize,
    root_slot: usize,
    files_closing: usize,
    idle_passes: u32,
    phase: Phase,
}

/// The mathematical content of an [`Executor`].
pub struct ExecutorModel<T, V> {
    /// The tables that tasks reach.
    pub cx: ContextModel<T, V>,
    /// The tasks that the current round has still to poll; the first one is
    /// polled next.
    pub scratch: Seq<usize>,
    /// The task record that stands for the deferred closes.
    pub close_task: usize,
    /// The reserved io-id that every deferred close is tagged with.
    pub close_io: usize,
    /// The output slot of the root task.
    pub root_slot: usize,
    /// The pending-close counter.
    pub files_closing: usize,
    /// The idle passes made since the caller last slept.
    pub idle_passes: u32,
    /// Where the run stands within a turn of the loop.
    pub phase: Phase,
}

/// Where a run stands within one turn of its loop.
#[derive(Clone, Copy, Debug, PartialEq, Eq, Structural)]
pub enum Phase {
    /// At the head of the loop.
    Head,
    /// In the idle wait.
    Waiting,
    /// In a round, before the poll of its next task.
    Polling,
    /// A poll that began at `started` has returned.
    Polled { started: u64 },
    /// The caller was told that a poll took too long; `expired` says
    /// whether the round had used up its budget when that poll returned.
    Warned { expired: bool },
    /// In the flush of one queue; `last` for the flushes that end a round,
    /// `awaiting` when the caller was last told to submit.
    Flushing { last: bool, direct: bool, awaiting: bool },
    /// The caller was told to make the submit that ends a flush.
    Flushed { last: bool, direct: bool },
    /// The caller was asked for the completions.
    Draining,
}

/// What the caller does next while nothing can make progress.
#[derive(Clone, Copy, Debug, PartialEq, Eq, Structural)]
pub enum IdleStep {
    /// Something is ready or has completed: go on with the loop.
    Resume,
    /// Sync both completion queues; with `poke_direct`, first issue a
    /// zero-wait submit on the direct-polled ring; with `sleep`, sleep for
    /// a moment afterwards. Then make another pass.
    Sync { poke_direct: bool, sleep: bool },
}

/// What one step of a round did.
#[derive(Clone, Copy, Debug, PartialEq, Eq, Structural)]
pub enum RoundStep {
    /// No task is left in this round.
    Drained,
    /// The task is gone, or is not to be polled: nothing was done.
    Skipped(usize),
    /// The task was polled and is still pending.
    Polled(usize),
    /// The task was polled, completed and was destroyed.
    Completed(usize),
}

impl<T, V> View for Executor<T, V> {
    type V = ExecutorModel<T, V>;

    closed spec fn view(&self) -> ExecutorModel<T, V> {
        ExecutorModel {
            cx: self.cx@,
            scratch: self.notifying@,
            close_task: self.close_file_task_id,
            close_io: self.close_file_io_id,
            root_slot: self.root_slot,
            files_closing: self.files_closing,
            idle_passes: self.idle_passes,
            phase: self.phase,
        }
    }
}

impl<T, V> ExecutorModel<T, V> {
    /// The first state of a run of `root` with the given budget.
    pub open spec fn begin(budget: u64, root: T) -> Self {
        ExecutorModel {
            cx: ContextModel {
                round_start: 0,
                current: 0,
                budget,
                tasks: Map::<usize, TaskCell<T>>::empty().insert(
                    0,
                    TaskCell { parent: None, slot: None, body: None },
                ).insert(1, TaskCell { parent: None, slot: Some(0), body: Some(root) }),
                tasks_issued: 2,
                outputs: Map::<usize, Option<V>>::empty().insert(0, None),
                slots_issued: 1,
                io: Map::<usize, IoRecord>::empty().insert(
                    0,
                    IoRecord { task: 0, direct: false, result: None },
                ),
                io_issued: 1,
                io_queue: Seq::empty(),
                dio_queue: Seq::empty(),
                ready: Set::<usize>::empty().insert(1),
                deadlines: Seq::empty(),
                direct_in_flight: 0,
                close_queue: Seq::empty(),
            },
            scratch: Seq::empty(),
            close_task: 0,
            close_io: 0,
            root_slot: 0,
            files_closing: 0,
            idle_passes: 0,
            phase: Phase::Head,
        }
    }

    /// The run is over: the root's value is there, no close is pending and
    /// none is waiting to be queued.
    pub open spec fn finished(self) -> bool {
        &&& self.cx.output(self.root_slot).is_some()
        &&& self.files_closing == 0
        &&& self.cx.close_queue.len() == 0
    }

    /// Nothing can make progress until the kernel or the clock moves.
    pub open spec fn idle(self, rings_idle: bool) -> bool {
        &&& rings_idle
        &&& self.cx.ready == Set::<usize>::empty()
        &&& self.scratch.len() == 0
        &&& self.cx.io_queue.len() == 0
        &&& self.cx.dio_queue.len() == 0
        &&& self.cx.close_queue.len() == 0
    }

    /// The body of `id`, if the task is in the table and not being polled.
    pub open spec fn body(self, id: usize) -> Option<T> {
        if self.cx.tasks.contains_key(id) {
            self.cx.tasks[id].body
        } else {
            None
        }
    }

    /// The state in which `id` is being polled: its body is out of the
    /// table, its record stays, and it is the current task.
    pub open spec fn lend(self, id: usize) -> Self {
        if self.body(id).is_some() {
            ExecutorModel {
                cx: ContextModel {
                    tasks: self.cx.tasks.insert(
                        id,
                        TaskCell { body: None, ..self.cx.tasks[id] },
                    ),
                    current: id,
                    ..self.cx
                },
                ..self
            }
        } else {
            self
        }
    }

    /// The state after the poll of `id` has returned `polled`. A pending
    /// task gets its body back. A completed one leaves the table, its value
    /// goes to its output slot, and its parent is marked ready. Either way
    /// no task is current any more.
    pub open spec fn settle(self, id: usize, body: T, polled: Polled<V>) -> Self {
        let cx = ContextModel { current: self.close_task, ..self.cx };
        if !self.cx.tasks.contains_key(id) {
            ExecutorModel { cx, ..self }
        } else {
            let cell = self.cx.tasks[id];
            match polled {
                Polled::Pending => ExecutorModel {
                    cx: ContextModel {
                        tasks: cx.tasks.insert(id, TaskCell { body: Some(body), ..cell }),
                        ..cx
                    },
                    ..self
                },
                Polled::Ready(v) => ExecutorModel {
                    cx: ContextModel {
                        tasks: cx.tasks.remove(id),
                        outputs: match cell.slot {
                            Some(slot) if cx.outputs.contains_key(slot) => cx.outputs.insert(
                                slot,
                                Some(v),
                            ),
                            _ => cx.outputs,
                        },
                        ready: match cell.parent {
                            Some(parent) => cx.ready.insert(parent),
                            None => cx.ready,
                        },
                        ..cx
                    },
                    ..self
                },
            }
        }
    }

    /// Whether the idle pass that comes next ends in a sleep.
    pub open spec fn idle_sleeps(self) -> bool {
        self.idle_passes + 1 >= IDLE_PASSES
    }

    /// The state after an idle pass at `now` in which nothing had
    /// completed and nothing was ready: the elapsed timers have fired.
    pub open spec fn idle_synced(self, now: u64) -> Self {
        ExecutorModel {
            cx: ContextModel {
                deadlines: self.cx.deadlines.filter(still_pending(now)),
                ready: elapsed_tasks(self.cx.deadlines, now),
                ..self.cx
            },
            idle_passes: if self.idle_sleeps() {
                0
            } else {
                (self.idle_passes + 1) as u32
            },
            ..self
        }
    }

    /// The state after the timers have fired at `now`: every wakeup whose
    /// instant is strictly in the past has left the deadline set and its
    /// task is marked ready.
    pub open spec fn timers_fired(self, now: u64) -> Self {
        ExecutorModel {
            cx: ContextModel {
                deadlines: self.cx.deadlines.filter(still_pending(now)),
                ready: self.cx.ready.union(elapsed_tasks(self.cx.deadlines, now)),
                ..self.cx
            },
            ..self
        }
    }

    /// Whether the pending-close counter can take in every descriptor that
    /// waits for a close.
    pub open spec fn closes_fit(self) -> bool {
        self.files_closing + self.cx.close_queue.len() <= usize::MAX
    }

    /// The state after a close, tagged with the reserved io-id, has been
    /// queued for every descriptor that waited for one.
    pub open spec fn closes_enqueued(self) -> Self {
        ExecutorModel {
            cx: ContextModel {
                io_queue: self.cx.io_queue + close_entries(self.cx.close_queue, self.close_io),
                close_queue: Seq::<i32>::empty(),
                ..self.cx
            },
            files_closing: (self.files_closing + self.cx.close_queue.len()) as usize,
            ..self
        }
    }

    /// `after` is the state in which a round has begun at `now`: every task
    /// that was ready has joined, once, the tasks that the round has to
    /// poll, behind those left over from the round before, and the ready
    /// set is empty.
    pub open spec fn round_begun(self, now: u64, after: Self) -> bool {
        let joined = after.scratch.skip(self.scratch.len() as int);
        &&& after.cx == (ContextModel {
            round_start: now,
            ready: Set::<usize>::empty(),
            ..self.cx
        })
        &&& after == (ExecutorModel { cx: after.cx, scratch: after.scratch, ..self })
        &&& after.scratch.len() >= self.scratch.len()
        &&& after.scratch.take(self.scratch.len() as int) == self.scratch
        &&& joined.no_duplicates()
        &&& forall|id: usize| joined.contains(id) <==> self.cx.ready.contains(id)
    }

    /// `after` is a state that the poll of the round's next task can leave,
    /// and `step` what is said of it. What the poll did to the tables is
    /// the task's business; whatever it did, the task has left the round, a
    /// completed task has left the table, and no task is current
    /// afterwards.
    pub open spec fn round_stepped(self, after: Self, step: RoundStep) -> bool {
        if self.scratch.len() == 0 {
            step == RoundStep::Drained && after == self
        } else {
            let id = self.scratch[0];
            &&& after.scratch == self.scratch.subrange(1, self.scratch.len() as int)
            &&& after == (ExecutorModel { cx: after.cx, scratch: after.scratch, ..self })
            &&& self.body(id).is_none() ==> step == RoundStep::Skipped(id) && after.cx == self.cx
            &&& self.body(id).is_some() ==> (step == RoundStep::Polled(id) || step
                == RoundStep::Completed(id)) && after.cx.current == self.close_task
            &&& step == RoundStep::Completed(id) ==> !after.cx.tasks.contains_key(id)
            &&& self.body(id).is_some() ==> exists|left: ContextModel<T, V>, body: T, polled: Polled<V>|
                self.poll_settled(after, step, left, body, polled)
        }
    }

    /// `after` and `step` are what comes of the poll of the round's first
    /// task if the poll leaves the tables as `left`, the task as `body` and
    /// returns `polled`.
    pub open spec fn poll_settled(
        self,
        after: Self,
        step: RoundStep,
        left: ContextModel<T, V>,
        body: T,
        polled: Polled<V>,
    ) -> bool {
        let id = self.scratch[0];
        &&& after == (ExecutorModel {
            cx: left,
            scratch: self.scratch.subrange(1, self.scratch.len() as int),
            ..self
        }).settle(id, body, polled)
        &&& step == match polled {
            Polled::Ready(_) => RoundStep::Completed(id),
            Polled::Pending => RoundStep::Polled(id),
        }
    }

    /// Why the completion `(user_data, direct)` cannot be accepted, if it
    /// cannot: it would take a counter below zero, or its io-id is neither
    /// the reserved one nor that of a live record.
    pub open spec fn completion_fault(self, user_data: u64, direct: bool) -> Option<Fault> {
        if direct && self.cx.direct_in_flight == 0 {
            Some(Fault::CounterUnderflow)
        } else if user_data == self.close_io {
            if self.files_closing == 0 {
                Some(Fault::CounterUnderflow)
            } else {
                None
            }
        } else if user_data > usize::MAX || !self.cx.io.contains_key(user_data as usize) {
            Some(Fault::UnknownCompletion)
        } else {
            None
        }
    }

    /// The state after an accepted completion: a deferred close counts
    /// down the pending closes; any other posts its result to its record
    /// and marks the owner ready. A direct one counts down the in-flight
    /// counter.
    pub open spec fn complete(self, user_data: u64, result: i32, direct: bool) -> Self {
        let in_flight = if direct {
            (self.cx.direct_in_flight - 1) as usize
        } else {
            self.cx.direct_in_flight
        };
        if user_data == self.close_io {
            ExecutorModel {
                cx: ContextModel { direct_in_flight: in_flight, ..self.cx },
                files_closing: (self.files_closing - 1) as usize,
                ..self
            }
        } else {
            let io_id = user_data as usize;
            let record = self.cx.io[io_id];
            ExecutorModel {
                cx: ContextModel {
                    io: self.cx.io.insert(io_id, IoRecord { result: Some(result), ..record }),
                    ready: self.cx.ready.insert(record.task),
                    direct_in_flight: in_flight,
                    ..self.cx
                },
                ..self
            }
        }
    }
}

/// Puts `items` behind what `queue` holds, in their order.
fn append_all(queue: &mut VecDeque<usize>, items: &Vec<usize>)
    ensures
        final(queue)@ == old(queue)@ + items@,
{
    let n: usize = items.len();
    let mut i: usize = 0;
    assert(queue@ =~= old(queue)@ + items@.take(0));
    while i < n
        invariant
            i <= n,
            n == items@.len(),
            queue@ == old(queue)@ + items@.take(i as int),
        decreases n - i,
    {
        queue.push_back(items[i]);
        assert(queue@ =~= old(queue)@ + items@.take(i + 1));
        i += 1;
    }
    assert(items@.take(n as int) =~= items@);
}

/// The close entries for `fds`, in their order, each tagged with
/// `close_io`.
pub open spec fn close_entries(fds: Seq<i32>, close_io: usize) -> Seq<Queued> {
    Seq::new(fds.len(), |i: int| Queued::spec_new(close_request(fds[i]), close_io))
}

/// Queues one close entry, tagged with `close_io`, for each descriptor.
fn queue_closes(queue: &mut VecDeque<Queued>, fds: &Vec<i32>, close_io: usize)
    ensures
        final(queue)@ == old(queue)@ + close_entries(fds@, close_io),
{
    let n: usize = fds.len();
    let mut i: usize = 0;
    assert(queue@ =~= old(queue)@ + close_entries(fds@, close_io).take(0));
    while i < n
        invariant
            i <= n,
            n == fds@.len(),
            queue@ == old(queue)@ + close_entries(fds@, close_io).take(i as int),
        decreases n - i,
    {
        queue.push_back(Queued::new(close_entry(fds[i]), close_io));
        assert(queue@ =~= old(queue)@ + close_entries(fds@, close_io).take(i + 1));
        i += 1;
    }
    assert(close_entries(fds@, close_io).take(n as int) =~= close_entries(fds@, close_io));
}

impl<T, V> Executor<T, V> {
    /// Where the run stands within a turn of the loop.
    pub fn phase(&self) -> (phase: Phase)
        ensures
            phase == self@.phase,
    {
        self.phase
    }

    pub(crate) fn set_phase(&mut self, phase: Phase)
        ensures
            final(self)@ == (ExecutorModel { phase, ..old(self)@ }),
    {
        self.phase = phase;
    }

    /// Whether the loop has reached its end.
    pub fn finished(&self) -> (done: bool)
        ensures
            done == self@.finished(),
    {
        let filled = match self.cx.outputs.get(self.root_slot) {
            Some(Some(_)) => true,
            _ => false,
        };
        filled && self.files_closing == 0 && self.cx.files_to_close.len() == 0
    }

    /// Takes the root's value, if the root has completed.
    pub fn take_output(&mut self) -> (value: Option<V>)
        ensures
            value == old(self)@.cx.output(old(self)@.root_slot),
            final(self)@ == (ExecutorModel {
                cx: old(self)@.cx.join(old(self)@.root_slot),
                ..old(self)@
            }),
    {
        let filled = match self.cx.outputs.get(self.root_slot) {
            Some(Some(_)) => true,
            _ => false,
        };
        if !filled {
            return None;
        }
        match self.cx.outputs.remove(self.root_slot) {
            Some(Some(v)) => Some(v),
            _ => None,
        }
    }

    /// Leaves `fd` to the executor from outside any task.
    pub fn defer_close(&mut self, fd: i32)
        ensures
            final(self)@ == (ExecutorModel {
                cx: ContextModel {
                    close_queue: old(self)@.cx.close_queue.push(fd),
                    ..old(self)@.cx
                },
                ..old(self)@
            }),
    {
        self.cx.defer_close(fd);
    }

    /// Whether `id` is in the task table.
    pub fn has_task(&self, id: usize) -> (live: bool)
        ensures
            live == self@.cx.tasks.contains_key(id),
    {
        self.cx.tasks.contains(id)
    }

    /// The task that awaits the operation `io_id`, if the operation is
    /// outstanding.
    pub fn owner_of(&self, io_id: usize) -> (owner: Option<usize>)
        ensures
            owner == if self@.cx.io.contains_key(io_id) {
                Some(self@.cx.io[io_id].task)
            } else {
                None
            },
    {
        match self.cx.io.get(io_id) {
            Some(record) => Some(record.task),
            None => None,
        }
    }

    /// The pending-close counter.
    pub fn files_closing(&self) -> (n: usize)
        ensures
            n == self@.files_closing,
    {
        self.files_closing
    }

    /// The direct in-flight counter.
    pub fn direct_in_flight(&self) -> (n: usize)
        ensures
            n == self@.cx.direct_in_flight,
    {
        self.cx.num_dio_running
    }

    /// Whether the loop has to wait. `rings_idle` says that the submission
    /// region and the completion queue of both rings are empty.
    pub fn should_wait(&self, rings_idle: bool) -> (wait: bool)
        ensures
            wait == self@.idle(rings_idle),
    {
        rings_idle && self.cx.to_notify.is_empty() && self.notifying.len() == 0
            && self.cx.io_queue.len() == 0 && self.cx.dio_queue.len() == 0
            && self.cx.files_to_close.len() == 0
    }

    /// One pass of the idle wait at `now`. `completions_waiting` says that
    /// one of the completion queues holds something.
    ///
    /// While nothing has completed and nothing is ready, the elapsed timers
    /// fire and the caller is told to sync; the direct-polled ring is poked
    /// as long as direct operations are in flight, and every sixteenth such
    /// pass ends in a sleep.
    pub fn idle_pass(&mut self, now: u64, completions_waiting: bool) -> (step: IdleStep)
        ensures
            completions_waiting || old(self)@.cx.ready != Set::<usize>::empty() ==> step
                == IdleStep::Resume && final(self)@ == (ExecutorModel {
                idle_passes: 0,
                ..old(self)@
            }),
            !completions_waiting && old(self)@.cx.ready == Set::<usize>::empty() ==> step == (
            IdleStep::Sync {
                poke_direct: old(self)@.cx.direct_in_flight > 0,
                sleep: old(self)@.idle_sleeps(),
            }) && final(self)@ == old(self)@.idle_synced(now),
    {
        if completions_waiting || !self.cx.to_notify.is_empty() {
            self.idle_passes = 0;
            return IdleStep::Resume;
        }
        notify_timers(&mut self.cx.notify_when, &mut self.cx.to_notify, now);
        assert(self.cx.to_notify@ =~= elapsed_tasks(old(self)@.cx.deadlines, now));
        let sleep = self.idle_passes >= IDLE_PASSES - 1;
        if sleep {
            self.idle_passes = 0;
        } else {
            self.idle_passes = self.idle_passes + 1;
        }
        IdleStep::Sync { poke_direct: self.cx.num_dio_running > 0, sleep }
    }

    /// Begins a round of polls at `now`: every ready task joins the tasks
    /// that the round has to poll, once, and the ready set is left empty.
    pub fn begin_round(&mut self, now: u64)
        ensures
            old(self)@.round_begun(now, final(self)@),
    {
        self.cx.start = now;
        let members = self.cx.to_notify.drain();
        let ghost joined = members@;
        append_all(&mut self.notifying, &members);
        assert(self.notifying@.take(old(self)@.scratch.len() as int) =~= old(self)@.scratch);
        assert(self.notifying@.skip(old(self)@.scratch.len() as int) =~= joined);
    }

    /// Takes the body of `id` out of the table for a poll and makes `id`
    /// the current task. Nothing is done for a task that is gone or has no
    /// body in the table.
    pub fn lend(&mut self, id: usize) -> (body: Option<T>)
        ensures
            body == old(self)@.body(id),
            final(self)@ == old(self)@.lend(id),
    {
        let (parent, slot) = match self.cx.tasks.get(id) {
            Some(cell) => {
                if cell.body.is_none() {
                    return None;
                }
                (cell.parent, cell.slot)
            },
            None => {
                return None;
            },
        };
        let cell = self.cx.tasks.replace(id, TaskCell { parent, slot, body: None });
        self.cx.task_id = id;
        match cell {
            Some(cell) => cell.body,
            None => None,
        }
    }

    /// Takes back the task `id` after its poll has returned `polled`.
    pub fn settle(&mut self, id: usize, body: T, polled: Polled<V>)
        ensures
            final(self)@ == old(self)@.settle(id, body, polled),
    {
        self.cx.task_id = self.close_file_task_id;
        let (parent, slot) = match self.cx.tasks.get(id) {
            Some(cell) => (cell.parent, cell.slot),
            None => {
                return ;
            },
        };
        match polled {
            Polled::Pending => {
                self.cx.tasks.replace(id, TaskCell { parent, slot, body: Some(body) });
            },
            Polled::Ready(v) => {
                self.cx.tasks.remove(id);
                match slot {
                    Some(slot) => {
                        self.cx.outputs.replace(slot, Some(v));
                    },
                    None => {},
                }
                match parent {
                    Some(parent) => {
                        self.cx.to_notify.insert(parent);
                    },
                    None => {},
                }
            },
        }
    }

    /// Polls the next task of the round once.
    pub fn poll_next(&mut self) -> (step: RoundStep) where T: Task<V>
        ensures
            old(self)@.round_stepped(final(self)@, step),
    {
        let id = match self.notifying.pop_front() {
            Some(id) => id,
            None => {
                return RoundStep::Drained;
            },
        };
        let mut body = match self.lend(id) {
            Some(body) => body,
            None => {
                return RoundStep::Skipped(id);
            },
        };
        let polled = body.poll(&mut self.cx);
        let completed = match &polled {
            Polled::Ready(_) => true,
            Polled::Pending => false,
        };
        let ghost left = self@.cx;
        let ghost polled_body = body;
        let ghost outcome = polled;
        self.settle(id, body, polled);
        assert(old(self)@.poll_settled(
            self@,
            if completed {
                RoundStep::Completed(id)
            } else {
                RoundStep::Polled(id)
            },
            left,
            polled_body,
            outcome,
        ));
        if completed {
            RoundStep::Completed(id)
        } else {
            RoundStep::Polled(id)
        }
    }

    /// Whether a poll that began at `poll_started` and has returned at
    /// `now` took longer than the preemption budget: the caller warns that
    /// the task should yield more often.
    pub fn poll_overran(&self, poll_started: u64, now: u64) -> (overran: bool)
        ensures
            overran == (elapsed(poll_started, now) > self@.cx.budget),
    {
        now >= poll_started && now - poll_started > self.cx.preempt_duration
    }

    /// Whether the round has used up the preemption budget at `now`: the
    /// caller stops polling and goes on to submit, with the rest of the
    /// round kept for the next one.
    pub fn round_expired(&self, now: u64) -> (expired: bool)
        ensures
            expired == (elapsed(self@.cx.round_start, now) > self@.cx.budget),
    {
        now >= self.cx.start && now - self.cx.start > self.cx.preempt_duration
    }

    /// One decision of the flush of a queue into its ring; see
    /// [`next_submit_step`].
    pub fn next_submission(
        &mut self,
        direct: bool,
        force: bool,
        sq_full: bool,
        sq_empty: bool,
        flushed: Option<SubmitOutcome>,
    ) -> (step: Result<SubmitStep, Fault>)
        ensures
            submit_step_rule(
                old(self)@.cx.queue(direct),
                final(self)@.cx.queue(direct),
                force,
                sq_full,
                sq_empty,
                flushed,
                step,
            ),
            final(self)@.cx.queue(!direct) == old(self)@.cx.queue(!direct),
            final(self)@ == (ExecutorModel {
                cx: ContextModel {
                    io_queue: final(self)@.cx.io_queue,
                    dio_queue: final(self)@.cx.dio_queue,
                    ..old(self)@.cx
                },
                ..old(self)@
            }),
    {
        if direct {
            next_submit_step(&mut self.cx.dio_queue, force, sq_full, sq_empty, flushed)
        } else {
            next_submit_step(&mut self.cx.io_queue, force, sq_full, sq_empty, flushed)
        }
    }

    /// Takes in one completion: the user data and the result that the
    /// kernel reported, and whether it came from the direct-polled ring.
    pub fn complete(&mut self, user_data: u64, result: i32, direct: bool) -> (r: Result<(), Fault>)
        ensures
            match old(self)@.completion_fault(user_data, direct) {
                Some(fault) => r == Err::<(), Fault>(fault) && final(self)@ == old(self)@,
                None => r == Ok::<(), Fault>(()) && final(self)@ == old(self)@.complete(
                    user_data,
                    result,
                    direct,
                ),
            },
    {
        if direct && self.cx.num_dio_running == 0 {
            return Err(Fault::CounterUnderflow);
        }
        if user_data == self.close_file_io_id as u64 {
            if self.files_closing == 0 {
                return Err(Fault::CounterUnderflow);
            }
            self.files_closing = self.files_closing - 1;
            if direct {
                self.cx.num_dio_running = self.cx.num_dio_running - 1;
            }
            return Ok(());
        }
        if user_data > usize::MAX as u64 {
            return Err(Fault::UnknownCompletion);
        }
        let io_id = user_data as usize;
        let (task, was_direct) = match self.cx.io.get(io_id) {
            Some(record) => (record.task, record.direct),
            None => {
                return Err(Fault::UnknownCompletion);
            },
        };
        self.cx.io.replace(io_id, IoRecord { task, direct: was_direct, result: Some(result) });
        self.cx.to_notify.insert(task);
        if direct {
            self.cx.num_dio_running = self.cx.num_dio_running - 1;
        }
        Ok(())
    }

    /// Fires the timers at `now`: every wakeup whose instant is strictly in
    /// the past leaves the deadline set and its task is marked ready.
    pub fn fire_timers(&mut self, now: u64)
        ensures
            final(self)@ == old(self)@.timers_fired(now),
    {
        notify_timers(&mut self.cx.notify_when, &mut self.cx.to_notify, now);
    }

    /// Queues a close, tagged with the reserved io-id, for every
    /// descriptor that waits for one, and counts them as pending. Nothing
    /// is done if the counter cannot hold them.
    pub fn enqueue_closes(&mut self) -> (r: Result<(), Fault>)
        ensures
            !old(self)@.closes_fit() ==> r == Err::<(), Fault>(Fault::CounterOverflow) && final(self)@ == old(self)@,
            old(self)@.closes_fit() ==> r == Ok::<(), Fault>(()) && final(self)@ == old(self)@.closes_enqueued(),
    {
        let n: usize = self.cx.files_to_close.len();
        if n > usize::MAX - self.files_closing {
            return Err(Fault::CounterOverflow);
        }
        queue_closes(&mut self.cx.io_queue, &self.cx.files_to_close, self.close_file_io_id);
        self.files_closing = self.files_closing + n;
        self.cx.files_to_close.clear();
        Ok(())
    }
}

/// A completion that is accepted, and is not a deferred close, carries the
/// io-id of a live record: one that was issued and whose result no task
/// has taken yet.
pub proof fn lemma_accepted_completion_is_outstanding<T, V>(
    m: ExecutorModel<T, V>,
    user_data: u64,
    direct: bool,
)
    requires
        m.completion_fault(user_data, direct).is_none(),
        user_data != m.close_io,
    ensures
        user_data <= usize::MAX,
        m.cx.io.contains_key(user_data as usize),
{
}

/// Only `queue_io` makes an io-id live, and it makes the one it returns:
/// every other step of a task or of the executor leaves the set of live
/// io-ids as it was or makes it smaller.
pub proof fn lemma_records_come_from_queue_io<T, V>(
    m: ExecutorModel<T, V>,
    entry: Entry,
    id: usize,
    body: T,
    polled: Polled<V>,
    user_data: u64,
    result: i32,
    direct: bool,
    now: u64,
)
    ensures
        m.cx.queue_io(entry, direct).io.dom() == m.cx.io.dom().insert(m.cx.io_issued as usize),
        m.cx.take_io_result(id).io.dom().subset_of(m.cx.io.dom()),
        m.cx.spawn(body).io == m.cx.io,
        m.cx.join(id).io == m.cx.io,
        m.lend(id).cx.io == m.cx.io,
        m.settle(id, body, polled).cx.io == m.cx.io,
        m.completion_fault(user_data, direct).is_none() ==> m.complete(
            user_data,
            result,
            direct,
        ).cx.io.dom() == m.cx.io.dom(),
        m.timers_fired(now).cx.io == m.cx.io,
        m.closes_enqueued().cx.io == m.cx.io,
{
    assert(m.cx.queue_io(entry, direct).io.dom() =~= m.cx.io.dom().insert(m.cx.io_issued as usize));
    if m.completion_fault(user_data, direct).is_none() {
        assert(m.complete(user_data, result, direct).cx.io.dom() =~= m.cx.io.dom());
    }
}

/// Whether the task that awaits each outstanding operation is in the task
/// table.
pub open spec fn owners_live<T, V>(cx: ContextModel<T, V>) -> bool {
    forall|io_id: usize| #[trigger]
        cx.io.contains_key(io_id) ==> cx.tasks.contains_key(cx.io[io_id].task)
}

/// The owner of every outstanding operation stays in the task table
/// through every step, as long as the current task is in the table when it
/// queues an operation and no task completes while an operation of its own
/// is outstanding.
pub proof fn lemma_owners_stay_live<T, V>(
    m: ExecutorModel<T, V>,
    entry: Entry,
    id: usize,
    body: T,
    value: V,
    user_data: u64,
    result: i32,
    direct: bool,
    now: u64,
)
    requires
        owners_live(m.cx),
    ensures
        m.cx.tasks.contains_key(m.cx.current) ==> owners_live(m.cx.queue_io(entry, direct)),
        owners_live(m.cx.take_io_result(id)),
        owners_live(m.cx.spawn(body)),
        owners_live(m.cx.join(id)),
        owners_live(m.lend(id).cx),
        owners_live(m.settle(id, body, Polled::Pending).cx),
        (forall|io_id: usize| #[trigger]
            m.cx.io.contains_key(io_id) ==> m.cx.io[io_id].task != id) ==> owners_live(
            m.settle(id, body, Polled::Ready(value)).cx,
        ),
        m.completion_fault(user_data, direct).is_none() ==> owners_live(
            m.complete(user_data, result, direct).cx,
        ),
        owners_live(m.timers_fired(now).cx),
        owners_live(m.closes_enqueued().cx),
{
    let q = m.cx.queue_io(entry, direct);
    if m.cx.tasks.contains_key(m.cx.current) {
        assert forall|io_id: usize| #[trigger] q.io.contains_key(io_id) implies q.tasks.contains_key(
            q.io[io_id].task,
        ) by {
            if io_id != m.cx.io_issued as usize {
                assert(m.cx.io.contains_key(io_id));
            }
        }
    }
    let t = m.cx.take_io_result(id);
    assert forall|io_id: usize| #[trigger] t.io.contains_key(io_id) implies t.tasks.contains_key(
        t.io[io_id].task,
    ) by {
        assert(m.cx.io.contains_key(io_id));
    }
    let s = m.cx.spawn(body);
    assert forall|io_id: usize| #[trigger] s.io.contains_key(io_id) implies s.tasks.contains_key(
        s.io[io_id].task,
    ) by {
        assert(m.cx.io.contains_key(io_id));
    }
    let l = m.lend(id).cx;
    assert forall|io_id: usize| #[trigger] l.io.contains_key(io_id) implies l.tasks.contains_key(
        l.io[io_id].task,
    ) by {
        assert(m.cx.io.contains_key(io_id));
    }
    let p = m.settle(id, body, Polled::Pending).cx;
    assert forall|io_id: usize| #[trigger] p.io.contains_key(io_id) implies p.tasks.contains_key(
        p.io[io_id].task,
    ) by {
        assert(m.cx.io.contains_key(io_id));
    }
    if forall|io_id: usize| #[trigger] m.cx.io.contains_key(io_id) ==> m.cx.io[io_id].task != id {
        let r = m.settle(id, body, Polled::Ready(value)).cx;
        assert forall|io_id: usize| #[trigger]
            r.io.contains_key(io_id) implies r.tasks.contains_key(r.io[io_id].task) by {
            assert(m.cx.io.contains_key(io_id));
        }
    }
    if m.completion_fault(user_data, direct).is_none() {
        let c = m.complete(user_data, result, direct).cx;
        assert forall|io_id: usize| #[trigger]
            c.io.contains_key(io_id) implies c.tasks.contains_key(c.io[io_id].task) by {
            assert(m.cx.io.contains_key(io_id));
        }
    }
}

/// A task that is being polled is in the task table, and so is the owner
/// of every record that it queues during that poll.
pub proof fn lemma_new_record_has_live_owner<T, V>(
    m: ExecutorModel<T, V>,
    id: usize,
    entry: Entry,
    direct: bool,
)
    requires
        m.body(id).is_some(),
    ensures
        m.lend(id).cx.current == id,
        m.lend(id).cx.tasks.contains_key(id),
        ({
            let after = m.lend(id).cx.queue_io(entry, direct);
            let io_id = m.cx.io_issued as usize;
            after.io.contains_key(io_id) && after.tasks.contains_key(after.io[io_id].task)
        }),
{
}

/// The direct in-flight counter goes up by one with each direct operation
/// queued, down by one with each direct completion taken in, and is left
/// alone by buffered ones.
pub proof fn lemma_direct_counter_balance<T, V>(
    m: ExecutorModel<T, V>,
    entry: Entry,
    user_data: u64,
    result: i32,
)
    requires
        m.cx.direct_in_flight < usize::MAX,
    ensures
        m.cx.queue_io(entry, true).direct_in_flight == m.cx.direct_in_flight + 1,
        m.cx.queue_io(entry, false).direct_in_flight == m.cx.direct_in_flight,
        (ExecutorModel { cx: m.cx.queue_io(entry, true), ..m }).complete(
            user_data,
            result,
            true,
        ).cx.direct_in_flight == m.cx.direct_in_flight,
        m.complete(user_data, result, false).cx.direct_in_flight == m.cx.direct_in_flight,
{
}

/// A join yields exactly the value that the child completed with, and the
/// child's completion marks its parent ready.
pub proof fn lemma_join_yields_child_value<T, V>(
    m: ExecutorModel<T, V>,
    child: usize,
    body: T,
    value: V,
)
    requires
        m.cx.tasks.contains_key(child),
        m.cx.tasks[child].slot.is_some(),
        m.cx.outputs.contains_key(m.cx.tasks[child].slot.unwrap()),
    ensures
        ({
            let after = m.settle(child, body, Polled::Ready(value));
            let slot = m.cx.tasks[child].slot.unwrap();
            &&& !after.cx.tasks.contains_key(child)
            &&& after.cx.output(slot) == Some(value)
            &&& after.cx.join(slot).output(slot).is_none()
            &&& m.cx.tasks[child].parent.is_some() ==> after.cx.ready.contains(
                m.cx.tasks[child].parent.unwrap(),
            )
        }),
{
}

/// A task that is ready when a round begins is in the round afterwards,
/// behind the tasks that the round before has left over, which keep their
/// places.
pub proof fn lemma_ready_task_joins_round<T, V>(
    m: ExecutorModel<T, V>,
    now: u64,
    after: ExecutorModel<T, V>,
    task: usize,
)
    requires
        m.round_begun(now, after),
        m.cx.ready.contains(task),
    ensures
        after.scratch.contains(task),
        forall|i: int| 0 <= i < m.scratch.len() ==> after.scratch[i] == m.scratch[i],
{
    let joined = after.scratch.skip(m.scratch.len() as int);
    assert(joined.contains(task));
    let k = choose|k: int| 0 <= k < joined.len() && joined[k] == task;
    assert(after.scratch[m.scratch.len() + k] == task);
    assert forall|i: int| 0 <= i < m.scratch.len() implies after.scratch[i] == m.scratch[i] by {
        assert(after.scratch.take(m.scratch.len() as int)[i] == after.scratch[i]);
    }
}

/// Each poll takes the first task of the round and moves every other one
/// place forward, whatever the polled task does: the task at place `p` is
/// polled by the poll that comes `p` polls later.
pub proof fn lemma_poll_moves_round_forward<T, V>(
    m: ExecutorModel<T, V>,
    after: ExecutorModel<T, V>,
    step: RoundStep,
)
    requires
        m.round_stepped(after, step),
        m.scratch.len() > 0,
    ensures
        step == RoundStep::Skipped(m.scratch[0]) || step == RoundStep::Polled(m.scratch[0])
            || step == RoundStep::Completed(m.scratch[0]),
        after.scratch.len() == m.scratch.len() - 1,
        forall|p: int| 1 <= p < m.scratch.len() ==> after.scratch[p - 1] == m.scratch[p],
{
}

/// When the run is over, the root's value is there, the pending-close
/// counter is zero and no descriptor waits for a close.
pub proof fn lemma_finished_run_has_closed_everything<T, V>(m: ExecutorModel<T, V>)
    requires
        m.finished(),
    ensures
        m.cx.output(m.root_slot).is_some(),
        m.files_closing == 0,
        m.cx.close_queue =~= Seq::<i32>::empty(),
{
}

impl<T, V> Executor<T, V> {
    /// Every live io-id and every live task id was issued by this run.
    pub proof fn lemma_live_ids_were_issued(&self, id: usize)
        ensures
            self@.cx.io.contains_key(id) ==> id < self@.cx.io_issued,
            self@.cx.tasks.contains_key(id) ==> id < self@.cx.tasks_issued,
    {
        if self@.cx.io.contains_key(id) {
            self.cx.io.lemma_live_ids_were_issued(id);
        }
        if self@.cx.tasks.contains_key(id) {
            self.cx.tasks.lemma_live_ids_were_issued(id);
        }
    }
}

} // verus!
