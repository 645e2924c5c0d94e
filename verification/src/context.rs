//! The handle through which a running task reaches the executor's tables.

use crate::ready::ReadySet;
use crate::ring::Queued;
use crate::slab::Slab;
use crate::timers::DeadlineSet;
use io_uring::squeue::Entry;
use std::collections::VecDeque;
use vstd::prelude::*;

verus! {

/// One outstanding kernel operation.
pub struct IoRecord {
    /// The task that queued it and awaits it.
    pub task: usize,
    /// Whether it went to the direct-polled ring.
    pub direct: bool,
    /// The kernel's result, once a completion has posted it.
    pub result: Option<i32>,
}

/// One task in the task table.
pub struct TaskCell<T> {
    /// The task that spawned this one and is woken when it completes.
    pub parent: Option<usize>,
    /// The output slot that receives the computation's value, if there is one.
    pub slot: Option<usize>,
    /// The computation; `None` while it is being polled, and for the record
    /// that stands for the deferred closes.
    pub body: Option<T>,
}

/// What one poll of a computation gave.
pub enum Polled<V> {
    Ready(V),
    Pending,
}

/// A computation that the executor drives: each poll runs it up to its next
/// suspension point. A poll reaches the executor through `cx` alone.
pub trait Task<V>: Sized {
    fn poll(&mut self, cx: &mut TaskContext<Self, V>) -> Polled<V>;
}

/// The executor's tables as a running task sees them.
pub struct TaskContext<T, V> {
    pub(crate) start: u64,
    pub(crate) task_id: usize,
    pub(crate) preempt_duration: u64,
    pub(crate) tasks: Slab<TaskCell<T>>,
    pub(crate) outputs: Slab<Option<V>>,
    pub(crate) io: Slab<IoRecord>,
    pub(crate) io_queue: VecDeque<Queued>,
    pub(crate) dio_queue: VecDeque<Queued>,
    pub(crate) to_notify: ReadySet,
    pub(crate) notify_when: DeadlineSet,
    pub(crate) num_dio_running: usize,
    pub(crate) files_to_close: Vec<i32>,
}

/// The mathematical content of a [`TaskContext`].
pub struct ContextModel<T, V> {
    /// The instant at which the current round of polls began.
    pub round_start: u64,
    /// The task being polled; between polls, the record of the deferred
    /// closes.
    pub current: usize,
    /// The preemption budget, in nanoseconds.
    pub budget: u64,
    /// The task table.
    pub tasks: Map<usize, TaskCell<T>>,
    /// How many task ids were issued.
    pub tasks_issued: nat,
    /// The output slots of spawned tasks and of the root.
    pub outputs: Map<usize, Option<V>>,
    /// How many output slots were issued.
    pub slots_issued: nat,
    /// The I/O record table.
    pub io: Map<usize, IoRecord>,
    /// How many io-ids were issued.
    pub io_issued: nat,
    /// The entries queued for the buffered ring, front first.
    pub io_queue: Seq<Queued>,
    /// The entries queued for the direct-polled ring, front first.
    pub dio_queue: Seq<Queued>,
    /// The ready set.
    pub ready: Set<usize>,
    /// The deadline set.
    pub deadlines: Seq<(u64, usize)>,
    /// The direct in-flight counter.
    pub direct_in_flight: usize,
    /// The descriptors that wait for a deferred close.
    pub close_queue: Seq<i32>,
}

impl<T, V> View for TaskContext<T, V> {
    type V = ContextModel<T, V>;

    open(crate) spec fn view(&self) -> ContextModel<T, V> {
        ContextModel {
            round_start: self.start,
            current: self.task_id,
            budget: self.preempt_duration,
            tasks: self.tasks@,
            tasks_issued: self.tasks.issued(),
            outputs: self.outputs@,
            slots_issued: self.outputs.issued(),
            io: self.io@,
            io_issued: self.io.issued(),
            io_queue: self.io_queue@,
            dio_queue: self.dio_queue@,
            ready: self.to_notify@,
            deadlines: self.notify_when@,
            direct_in_flight: self.num_dio_running,
            close_queue: self.files_to_close@,
        }
    }
}

/// The time that has passed at `now` since `start`; none if the clock reads
/// earlier than `start`.
pub open spec fn elapsed(start: u64, now: u64) -> int {
    if now >= start {
        now - start
    } else {
        0
    }
}

impl<T, V> ContextModel<T, V> {
    /// The queue of the direct-polled ring (`direct`) or of the buffered
    /// ring.
    pub open spec fn queue(self, direct: bool) -> Seq<Queued> {
        if direct {
            self.dio_queue
        } else {
            self.io_queue
        }
    }

    /// The state after the current task has queued the operation that
    /// `entry` describes.
    pub open spec fn queue_io(self, entry: Entry, direct: bool) -> Self {
        let io_id = self.io_issued as usize;
        let queued = Queued::spec_new(entry, io_id);
        ContextModel {
            io: self.io.insert(io_id, IoRecord { task: self.current, direct, result: None }),
            io_issued: self.io_issued + 1,
            io_queue: if direct {
                self.io_queue
            } else {
                self.io_queue.push(queued)
            },
            dio_queue: if direct {
                self.dio_queue.push(queued)
            } else {
                self.dio_queue
            },
            direct_in_flight: if direct {
                (self.direct_in_flight + 1) as usize
            } else {
                self.direct_in_flight
            },
            ..self
        }
    }

    /// The result that a completion has posted for `io_id`, if the record
    /// is live and has one.
    pub open spec fn posted(self, io_id: usize) -> Option<i32> {
        if self.io.contains_key(io_id) {
            self.io[io_id].result
        } else {
            None
        }
    }

    /// The state after a task has asked for the result of `io_id`: a posted
    /// result leaves together with its record.
    pub open spec fn take_io_result(self, io_id: usize) -> Self {
        if self.posted(io_id).is_some() {
            ContextModel { io: self.io.remove(io_id), ..self }
        } else {
            self
        }
    }

    /// Whether a task that asks at `now` has used up the round's budget.
    pub open spec fn must_yield(self, now: u64) -> bool {
        elapsed(self.round_start, now) >= self.budget
    }

    /// The state after the current task has spawned a child.
    pub open spec fn spawn(self, task: T) -> Self {
        let slot = self.slots_issued as usize;
        let child = self.tasks_issued as usize;
        ContextModel {
            outputs: self.outputs.insert(slot, None),
            slots_issued: self.slots_issued + 1,
            tasks: self.tasks.insert(
                child,
                TaskCell { parent: Some(self.current), slot: Some(slot), body: Some(task) },
            ),
            tasks_issued: self.tasks_issued + 1,
            ready: self.ready.insert(child),
            ..self
        }
    }

    /// The value that waits in `slot`, if the slot is live and filled.
    pub open spec fn output(self, slot: usize) -> Option<V> {
        if self.outputs.contains_key(slot) {
            self.outputs[slot]
        } else {
            None
        }
    }

    /// The state after a join on `slot`: a value that waited there leaves
    /// together with the slot.
    pub open spec fn join(self, slot: usize) -> Self {
        if self.output(slot).is_some() {
            ContextModel { outputs: self.outputs.remove(slot), ..self }
        } else {
            self
        }
    }
}

/// The right to the value of a spawned task.
pub struct JoinHandle {
    slot: usize,
}

impl JoinHandle {
    /// The output slot that the handle reads.
    pub closed spec fn slot(&self) -> usize {
        self.slot
    }

    /// Takes the child's value if the child has completed; each value is
    /// handed out once.
    pub fn poll<T, V>(&self, cx: &mut TaskContext<T, V>) -> (polled: Polled<V>)
        ensures
            polled == match old(cx)@.output(self.slot()) {
                Some(v) => Polled::Ready(v),
                None => Polled::<V>::Pending,
            },
            final(cx)@ == old(cx)@.join(self.slot()),
    {
        let filled = match cx.outputs.get(self.slot) {
            Some(Some(_)) => true,
            _ => false,
        };
        if !filled {
            return Polled::Pending;
        }
        match cx.outputs.remove(self.slot) {
            Some(Some(v)) => Polled::Ready(v),
            _ => Polled::Pending,
        }
    }
}

/// The yield primitive: a task polls it between units of work.
#[must_use]
pub struct YieldIfNeeded;

impl YieldIfNeeded {
    /// `Pending` if the task has to give way at `now`, in which case it is
    /// marked ready again; `Ready` if it may go on.
    pub fn poll<T, V>(&self, cx: &mut TaskContext<T, V>, now: u64) -> (polled: Polled<()>)
        ensures
            polled == if old(cx)@.must_yield(now) {
                Polled::<()>::Pending
            } else {
                Polled::Ready(())
            },
            final(cx)@ == if old(cx)@.must_yield(now) {
                (ContextModel { ready: old(cx)@.ready.insert(old(cx)@.current), ..old(cx)@ })
            } else {
                old(cx)@
            },
    {
        if cx.yield_if_needed(now) {
            Polled::Pending
        } else {
            Polled::Ready(())
        }
    }
}

/// Spawns `task` as a child of the task that `cx` belongs to.
pub fn spawn<T, V>(cx: &mut TaskContext<T, V>, task: T) -> (handle: JoinHandle)
    ensures
        handle.slot() == old(cx)@.slots_issued,
        final(cx)@ == old(cx)@.spawn(task),
{
    cx.spawn(task)
}

impl<T, V> TaskContext<T, V> {
    /// Marks `task_id` ready.
    pub fn notify(&mut self, task_id: usize)
        ensures
            final(self)@ == (ContextModel { ready: old(self)@.ready.insert(task_id), ..old(self)@ }),
    {
        self.to_notify.insert(task_id);
    }

    /// The number of direct operations that were queued and whose
    /// completion has not been drained.
    pub fn direct_in_flight(&self) -> (n: usize)
        ensures
            n == self@.direct_in_flight,
    {
        self.num_dio_running
    }

    /// Records an operation of the current task, tags `entry` with the new
    /// io-id and queues it for the chosen ring.
    ///
    /// Whatever `entry` points to has to stay valid and in place until the
    /// task has taken the result: the task must not complete before.
    pub fn queue_io(&mut self, entry: Entry, direct_io: bool) -> (io_id: usize)
        requires
            direct_io ==> old(self)@.direct_in_flight < usize::MAX,
        ensures
            io_id == old(self)@.io_issued,
            !old(self)@.io.contains_key(io_id),
            final(self)@ == old(self)@.queue_io(entry, direct_io),
    {
        let io_id = self.io.insert(IoRecord { task: self.task_id, direct: direct_io, result: None });
        let queued = Queued::new(entry, io_id);
        if direct_io {
            self.num_dio_running = self.num_dio_running + 1;
            self.dio_queue.push_back(queued);
        } else {
            self.io_queue.push_back(queued);
        }
        io_id
    }

    /// Hands out the result of `io_id` if a completion has posted one, and
    /// retires the record; otherwise changes nothing.
    pub fn take_io_result(&mut self, io_id: usize) -> (result: Option<i32>)
        ensures
            result == old(self)@.posted(io_id),
            final(self)@ == old(self)@.take_io_result(io_id),
    {
        let posted = match self.io.get(io_id) {
            Some(record) => record.result,
            None => None,
        };
        if posted.is_some() {
            self.io.remove(io_id);
        }
        posted
    }

    /// Whether the current task should suspend at `now`; if so it is marked
    /// ready, so that it runs again in a later round.
    pub fn yield_if_needed(&mut self, now: u64) -> (suspend: bool)
        ensures
            suspend == old(self)@.must_yield(now),
            final(self)@ == if suspend {
                (ContextModel {
                    ready: old(self)@.ready.insert(old(self)@.current),
                    ..old(self)@
                })
            } else {
                old(self)@
            },
    {
        let passed: u64 = if now >= self.start {
            now - self.start
        } else {
            0
        };
        if passed < self.preempt_duration {
            false
        } else {
            self.to_notify.insert(self.task_id);
            true
        }
    }

    /// Puts `task` into the task table as a child of the current task and
    /// marks it ready. The child's value goes to a fresh output slot, which
    /// the handle reads; its completion wakes the current task.
    pub fn spawn(&mut self, task: T) -> (handle: JoinHandle)
        ensures
            handle.slot() == old(self)@.slots_issued,
            final(self)@ == old(self)@.spawn(task),
    {
        let slot = self.outputs.insert(None);
        let child = self.tasks.insert(
            TaskCell { parent: Some(self.task_id), slot: Some(slot), body: Some(task) },
        );
        self.to_notify.insert(child);
        JoinHandle { slot }
    }

    /// Registers the current task for a wakeup at or after `when`.
    pub fn notify_when(&mut self, when: u64)
        ensures
            final(self)@ == (ContextModel {
                deadlines: old(self)@.deadlines.push((when, old(self)@.current)),
                ..old(self)@
            }),
    {
        self.notify_when.register(when, self.task_id);
    }

    /// Leaves `fd` to the executor, which closes it through the ring before
    /// the run ends.
    pub fn defer_close(&mut self, fd: i32)
        ensures
            final(self)@ == (ContextModel {
                close_queue: old(self)@.close_queue.push(fd),
                ..old(self)@
            }),
    {
        self.files_to_close.push(fd);
    }
}

} // verus!
