use io2::context::{Polled, Task, TaskContext};
use io2::executor::{ExecutorConfig, RoundStep};
use io2::op::{io_outcome, Operation};
use io2::ready::ReadySet;
use io2::ring::{next_submit_step, submit_outcome, Fault, Queued, SubmitOutcome, SubmitStep};
use io2::slab::Slab;
use io2::timers::{notify_timers, DeadlineSet};
use io_uring::opcode::Nop;
use std::collections::VecDeque;

#[test]
fn slab_ids_are_stable_and_never_issued_twice() {
    let mut slab = Slab::new();
    assert_eq!(slab.insert("a"), 0);
    assert_eq!(slab.insert("b"), 1);
    assert_eq!(slab.remove(0), Some("a"));
    assert_eq!(slab.get(0), None);
    assert_eq!(slab.remove(0), None);
    assert_eq!(slab.insert("c"), 2);
    assert_eq!(slab.get(1), Some(&"b"));
    assert!(slab.contains(2));
    assert!(!slab.contains(0));
    assert!(!slab.contains(3));
    assert_eq!(slab.replace(1, "d"), Some("b"));
    assert_eq!(slab.get(1), Some(&"d"));
    assert_eq!(slab.replace(0, "e"), None);
    assert_eq!(slab.get(0), None);
    assert_eq!(slab.replace(9, "e"), None);
}

#[test]
fn ready_set_collapses_duplicates() {
    let mut ready = ReadySet::new();
    assert!(ready.is_empty());
    ready.insert(3);
    ready.insert(5);
    ready.insert(3);
    assert!(ready.contains(3));
    assert!(!ready.contains(4));
    assert!(!ready.is_empty());
    let mut members = ready.drain();
    members.sort();
    assert_eq!(members, vec![3, 5]);
    assert!(ready.is_empty());
    assert!(ready.drain().is_empty());
}

#[test]
fn timers_strictly_in_the_past_fire() {
    let mut deadlines = DeadlineSet::new();
    let mut ready = ReadySet::new();
    assert!(deadlines.is_empty());
    deadlines.register(10, 1);
    deadlines.register(30, 2);
    deadlines.register(20, 3);
    deadlines.register(5, 1);
    notify_timers(&mut deadlines, &mut ready, 20);
    let mut woken = ready.drain();
    woken.sort();
    assert_eq!(woken, vec![1]);
    notify_timers(&mut deadlines, &mut ready, 21);
    assert_eq!(ready.drain(), vec![3]);
    assert!(!deadlines.is_empty());
    notify_timers(&mut deadlines, &mut ready, u64::MAX);
    assert_eq!(ready.drain(), vec![2]);
    assert!(deadlines.is_empty());
}

#[test]
fn submit_outcomes() {
    assert_eq!(submit_outcome(Ok(3)), SubmitOutcome::Submitted);
    assert_eq!(submit_outcome(Err(Some(libc::EBUSY))), SubmitOutcome::Busy);
    assert_eq!(submit_outcome(Err(Some(libc::EINVAL))), SubmitOutcome::Fatal);
    assert_eq!(submit_outcome(Err(None)), SubmitOutcome::Fatal);
}

fn queue_of(ids: &[usize]) -> VecDeque<Queued> {
    ids.iter().map(|&io_id| Queued::new(Nop::new().build(), io_id)).collect()
}

fn pushed(step: Result<SubmitStep, Fault>) -> usize {
    match step {
        Ok(SubmitStep::Push(queued)) => {
            assert_eq!(queued.entry().get_user_data(), queued.io_id() as u64);
            queued.io_id()
        }
        _ => panic!("an entry is pushed"),
    }
}

#[test]
fn a_flush_pushes_front_first_and_stops_when_busy() {
    let mut queue = queue_of(&[4, 5, 6]);
    assert_eq!(pushed(next_submit_step(&mut queue, false, false, true, None)), 4);
    // The region is full: submit before the next push.
    assert!(matches!(
        next_submit_step(&mut queue, false, true, false, None),
        Ok(SubmitStep::Flush)
    ));
    assert_eq!(queue.len(), 2);
    assert_eq!(
        pushed(next_submit_step(&mut queue, false, true, false, Some(SubmitOutcome::Submitted))),
        5
    );
    assert!(matches!(
        next_submit_step(&mut queue, false, true, false, None),
        Ok(SubmitStep::Flush)
    ));
    // A busy kernel ends the pushing; the last entry stays queued.
    assert!(matches!(
        next_submit_step(&mut queue, false, true, false, Some(SubmitOutcome::Busy)),
        Ok(SubmitStep::FinalFlush)
    ));
    assert_eq!(queue.len(), 1);
    assert_eq!(queue[0].io_id(), 6);
    assert!(matches!(
        next_submit_step(&mut queue, false, true, false, Some(SubmitOutcome::Fatal)),
        Err(Fault::SubmitFailed)
    ));
    assert_eq!(queue.len(), 1);
}

#[test]
fn an_empty_flush_submits_only_if_forced_or_something_is_in_the_region() {
    let mut queue = queue_of(&[]);
    assert!(matches!(next_submit_step(&mut queue, false, false, true, None), Ok(SubmitStep::Done)));
    assert!(matches!(
        next_submit_step(&mut queue, true, false, true, None),
        Ok(SubmitStep::FinalFlush)
    ));
    assert!(matches!(
        next_submit_step(&mut queue, false, false, false, None),
        Ok(SubmitStep::FinalFlush)
    ));
    assert!(matches!(
        next_submit_step(&mut queue, false, true, true, Some(SubmitOutcome::Submitted)),
        Ok(SubmitStep::Done)
    ));
}

#[test]
fn completion_results_are_read_as_value_or_error_number() {
    assert_eq!(io_outcome(0), Ok(0));
    assert_eq!(io_outcome(4096), Ok(4096));
    assert_eq!(io_outcome(i32::MAX), Ok(2147483647));
    assert_eq!(io_outcome(-2), Err(2));
    assert_eq!(io_outcome(-1), Err(1));
    assert_eq!(io_outcome(i32::MIN), Err(2147483648));
}

/// Queues one buffered and one direct operation, then waits for both and
/// returns the sum of their results.
struct Reader {
    buffered: Operation,
    direct: Operation,
    sum: i32,
    got: u32,
}

impl Task<i32> for Reader {
    fn poll(&mut self, cx: &mut TaskContext<Reader, i32>) -> Polled<i32> {
        if !self.buffered.started() {
            assert_eq!(cx.direct_in_flight(), 0);
            self.buffered.start(cx, Nop::new().build(), false);
            self.direct.start(cx, Nop::new().build(), true);
            assert_eq!(cx.direct_in_flight(), 1);
            return Polled::Pending;
        }
        for op in [&self.buffered, &self.direct] {
            if let Polled::Ready(outcome) = op.poll(cx) {
                self.sum += outcome.unwrap() as i32;
                self.got += 1;
            }
        }
        if self.got == 2 {
            Polled::Ready(self.sum)
        } else {
            Polled::Pending
        }
    }
}

fn reader() -> Reader {
    Reader { buffered: Operation::new(), direct: Operation::new(), sum: 0, got: 0 }
}

#[test]
fn queued_operations_are_tagged_completed_and_taken_once() {
    let mut ex = ExecutorConfig::new().run(reader());
    ex.begin_round(0);
    assert_eq!(ex.poll_next(), RoundStep::Polled(1));
    assert_eq!(ex.direct_in_flight(), 1);
    assert!(!ex.should_wait(true));
    // Both records belong to the task that queued them, which is alive.
    assert_eq!(ex.owner_of(1), Some(1));
    assert_eq!(ex.owner_of(2), Some(1));
    assert_eq!(ex.owner_of(3), None);
    assert!(ex.has_task(1));

    // The reserved io-id is 0, so the first operations get 1 and 2.
    let step = ex.next_submission(false, false, false, true, None);
    let buffered = match step {
        Ok(SubmitStep::Push(queued)) => queued,
        _ => panic!("the buffered entry is pushed"),
    };
    assert_eq!(buffered.io_id(), 1);
    assert_eq!(buffered.entry().get_user_data(), 1);
    assert_eq!(buffered.user_data(), 1);
    assert!(matches!(
        ex.next_submission(false, false, false, false, None),
        Ok(SubmitStep::FinalFlush)
    ));
    let direct = match ex.next_submission(true, true, false, true, None) {
        Ok(SubmitStep::Push(queued)) => queued,
        _ => panic!("the direct entry is pushed"),
    };
    assert_eq!(direct.io_id(), 2);
    assert_eq!(direct.entry().get_user_data(), 2);
    assert_eq!(direct.user_data(), 2);
    assert!(ex.should_wait(true));

    // A completion for an io-id that was never issued is refused.
    assert_eq!(ex.complete(3, 0, false), Err(Fault::UnknownCompletion));
    assert_eq!(ex.complete(u64::MAX, 0, false), Err(Fault::UnknownCompletion));
    assert!(ex.should_wait(true));

    assert_eq!(ex.complete(2, 30, true), Ok(()));
    assert_eq!(ex.direct_in_flight(), 0);
    // No direct operation is in flight any more.
    assert_eq!(ex.complete(2, 30, true), Err(Fault::CounterUnderflow));
    assert!(!ex.should_wait(true));
    ex.begin_round(1);
    assert_eq!(ex.poll_next(), RoundStep::Polled(1));
    assert_eq!(ex.poll_next(), RoundStep::Drained);

    // Its result was taken: the io-id is no longer outstanding.
    assert_eq!(ex.complete(2, 30, false), Err(Fault::UnknownCompletion));
    assert_eq!(ex.complete(1, 12, false), Ok(()));
    ex.begin_round(2);
    assert_eq!(ex.poll_next(), RoundStep::Completed(1));
    assert!(ex.finished());
    assert_eq!(ex.take_output(), Some(42));
}

#[test]
fn a_failed_operation_gives_its_error_number() {
    struct Failing(Operation);
    impl Task<i32> for Failing {
        fn poll(&mut self, cx: &mut TaskContext<Failing, i32>) -> Polled<i32> {
            if !self.0.started() {
                assert!(matches!(self.0.poll(cx), Polled::Pending));
                self.0.start(cx, Nop::new().build(), false);
                return Polled::Pending;
            }
            match self.0.poll(cx) {
                Polled::Ready(Err(errno)) => Polled::Ready(errno as i32),
                Polled::Ready(Ok(_)) => Polled::Ready(-1),
                Polled::Pending => Polled::Pending,
            }
        }
    }
    let mut ex = ExecutorConfig::new().run(Failing(Operation::new()));
    ex.begin_round(0);
    assert_eq!(ex.poll_next(), RoundStep::Polled(1));
    // Polled before the completion: still pending.
    ex.begin_round(0);
    assert_eq!(ex.poll_next(), RoundStep::Drained);
    assert_eq!(ex.complete(1, -libc::ENOENT, false), Ok(()));
    ex.begin_round(1);
    assert_eq!(ex.poll_next(), RoundStep::Completed(1));
    assert_eq!(ex.take_output(), Some(libc::ENOENT));
}

#[test]
fn a_task_that_is_gone_is_skipped() {
    struct Twice;
    impl Task<i32> for Twice {
        fn poll(&mut self, cx: &mut TaskContext<Twice, i32>) -> Polled<i32> {
            // Marks a task that does not exist, and the record of the closes.
            cx.notify(17);
            cx.notify(0);
            Polled::Ready(1)
        }
    }
    let mut ex = ExecutorConfig::new().run(Twice);
    ex.begin_round(0);
    assert_eq!(ex.poll_next(), RoundStep::Completed(1));
    ex.begin_round(0);
    let mut skipped = vec![ex.poll_next(), ex.poll_next()];
    skipped.sort_by_key(|s| match s {
        RoundStep::Skipped(id) => *id,
        _ => usize::MAX,
    });
    assert_eq!(skipped, vec![RoundStep::Skipped(0), RoundStep::Skipped(17)]);
    assert_eq!(ex.poll_next(), RoundStep::Drained);
    assert!(ex.finished());
}

#[test]
fn a_round_polls_its_tasks_in_the_order_in_which_they_joined() {
    struct Spawner(u32);
    impl Task<i32> for Spawner {
        fn poll(&mut self, cx: &mut TaskContext<Spawner, i32>) -> Polled<i32> {
            if self.0 > 0 {
                let children = self.0;
                self.0 = 0;
                for _ in 0..children {
                    cx.spawn(Spawner(0));
                }
                return Polled::Pending;
            }
            Polled::Ready(0)
        }
    }
    let mut ex = ExecutorConfig::new().run(Spawner(3));
    ex.begin_round(0);
    assert_eq!(ex.poll_next(), RoundStep::Polled(1));
    // The round ends after one poll of the next one: two tasks are left over.
    ex.begin_round(1);
    let first = ex.poll_next();
    assert!(matches!(first, RoundStep::Completed(2 | 3 | 4)));
    // The children wake the root as they complete; it joins behind them.
    ex.begin_round(2);
    let mut rest = vec![ex.poll_next(), ex.poll_next()];
    rest.push(first);
    rest.sort_by_key(|s| match s {
        RoundStep::Completed(id) => *id,
        _ => usize::MAX,
    });
    assert_eq!(
        rest,
        vec![RoundStep::Completed(2), RoundStep::Completed(3), RoundStep::Completed(4)]
    );
    assert_eq!(ex.poll_next(), RoundStep::Completed(1));
    assert_eq!(ex.poll_next(), RoundStep::Drained);
}
