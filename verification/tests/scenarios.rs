use io2::context::{spawn, JoinHandle, Polled, Task, TaskContext, YieldIfNeeded};
use io2::executor::{budget_from_nanos, Executor, ExecutorConfig, IdleStep, Phase, RoundStep};
use io2::op::Operation;
use io2::ring::{Fault, SubmitOutcome, SubmitStep};
use io2::turn::{Action, Completion, Event, Observation};
use io_uring::opcode::{Close, Nop};
use std::cell::Cell;
use std::rc::Rc;
use std::time::{Duration, Instant};

/// A clock that the test moves by hand, or the machine's own.
#[derive(Clone)]
enum Clock {
    Real(Instant),
    Fake(Rc<Cell<u64>>),
}

impl Clock {
    fn now(&self) -> u64 {
        match self {
            Clock::Real(epoch) => epoch.elapsed().as_nanos() as u64,
            Clock::Fake(t) => t.get(),
        }
    }

    fn advance(&self, by: u64) {
        if let Clock::Fake(t) = self {
            t.set(t.get() + by);
        }
    }
}

/// A stand-in for the kernel: two submission regions of two entries each,
/// and operations that complete with result 0 as soon as they are
/// submitted.
struct Kernel {
    sq: Vec<u64>,
    dio_sq: Vec<u64>,
    cq: Vec<Completion>,
    dio_cq: Vec<Completion>,
    submits: usize,
    warnings: usize,
    sleeps: usize,
}

impl Kernel {
    fn new() -> Kernel {
        Kernel {
            sq: Vec::new(),
            dio_sq: Vec::new(),
            cq: Vec::new(),
            dio_cq: Vec::new(),
            submits: 0,
            warnings: 0,
            sleeps: 0,
        }
    }

    fn submit(&mut self, direct: bool) {
        self.submits += 1;
        if direct {
            for user_data in self.dio_sq.drain(..) {
                self.dio_cq.push(Completion { user_data, result: 0, direct: true });
            }
        } else {
            for user_data in self.sq.drain(..) {
                self.cq.push(Completion { user_data, result: 0, direct: false });
            }
        }
    }

    fn seen(&self, clock: &Clock) -> Observation {
        Observation {
            now: clock.now(),
            sq_full: self.sq.len() >= 2,
            sq_empty: self.sq.is_empty(),
            cq_empty: self.cq.is_empty(),
            dio_sq_full: self.dio_sq.len() >= 2,
            dio_sq_empty: self.dio_sq.is_empty(),
            dio_cq_empty: self.dio_cq.is_empty(),
        }
    }
}

/// Runs the loop against the stand-in kernel. Returns the root's value and
/// the number of rounds of polls.
fn drive<T: Task<i32>>(mut ex: Executor<T, i32>, clock: &Clock, kernel: &mut Kernel) -> (i32, usize) {
    let mut rounds = 0;
    let mut submitted = None;
    let mut completions = Vec::new();
    for _ in 0..1_000_000 {
        let before = ex.phase();
        let event = Event { seen: kernel.seen(clock), submitted, completions };
        submitted = None;
        completions = Vec::new();
        let action = ex.step(event).unwrap();
        if before != Phase::Polling && ex.phase() == Phase::Polling {
            if matches!(before, Phase::Head | Phase::Waiting) {
                rounds += 1;
            }
        }
        match action {
            Action::Exit => return (ex.take_output().unwrap(), rounds),
            Action::Observe => {}
            Action::Sync { poke_direct, sleep } => {
                if poke_direct {
                    kernel.submit(true);
                    submitted = Some(SubmitOutcome::Submitted);
                }
                if sleep {
                    kernel.sleeps += 1;
                }
                clock.advance(1);
            }
            Action::WarnSlowPoll => kernel.warnings += 1,
            Action::Push { direct, queued } => {
                assert_eq!(queued.entry().get_user_data(), queued.io_id() as u64);
                let sq = if direct { &mut kernel.dio_sq } else { &mut kernel.sq };
                assert!(sq.len() < 2, "pushed into a full region");
                sq.push(queued.entry().get_user_data());
            }
            Action::Submit { direct } => {
                kernel.submit(direct);
                submitted = Some(SubmitOutcome::Submitted);
            }
            Action::Drain => {
                completions.append(&mut kernel.cq);
                completions.append(&mut kernel.dio_cq);
            }
        }
    }
    panic!("the loop does not end");
}

enum Job {
    Root { stage: u32, clock: Clock, first: Option<JoinHandle>, second: Option<JoinHandle> },
    YieldThenOne { yielded: bool, clock: Clock },
    Two,
}

impl Task<i32> for Job {
    fn poll(&mut self, cx: &mut TaskContext<Job, i32>) -> Polled<i32> {
        match self {
            Job::Two => Polled::Ready(2),
            Job::YieldThenOne { yielded, clock } => {
                if !*yielded {
                    if let Polled::Pending = YieldIfNeeded.poll(cx, clock.now()) {
                        return Polled::Pending;
                    }
                    *yielded = true;
                }
                Polled::Ready(1)
            }
            Job::Root { stage, clock, first, second } => loop {
                match *stage {
                    0..=4 | 6 | 8 => {
                        if let Polled::Pending = YieldIfNeeded.poll(cx, clock.now()) {
                            return Polled::Pending;
                        }
                    }
                    5 => {
                        let child = Job::YieldThenOne { yielded: false, clock: clock.clone() };
                        *first = Some(spawn(cx, child));
                    }
                    7 => *second = Some(spawn(cx, Job::Two)),
                    9 => match second.as_ref().unwrap().poll(cx) {
                        Polled::Ready(v) => assert_eq!(2, v),
                        Polled::Pending => return Polled::Pending,
                    },
                    10 => match first.as_ref().unwrap().poll(cx) {
                        Polled::Ready(v) => assert_eq!(1, v),
                        Polled::Pending => return Polled::Pending,
                    },
                    _ => return Polled::Ready(0),
                }
                *stage += 1;
            },
        }
    }
}

#[test]
fn test_spawn() {
    let clock = Clock::Real(Instant::now());
    let root = Job::Root { stage: 0, clock: clock.clone(), first: None, second: None };
    let (r, _) = drive(ExecutorConfig::new().run(root), &clock, &mut Kernel::new());
    assert_eq!(r, 0);
}

#[test]
fn a_budget_of_zero_suspends_at_every_yield() {
    let clock = Clock::Fake(Rc::new(Cell::new(0)));
    let root = Job::Root { stage: 0, clock: clock.clone(), first: None, second: None };
    let mut ex = ExecutorConfig::new().preempt_nanos(0).run(root);
    for turn in 0..40 {
        ex.begin_round(turn);
        assert_eq!(ex.poll_next(), RoundStep::Polled(1));
        assert_eq!(ex.poll_next(), RoundStep::Drained);
        assert!(!ex.should_wait(true));
    }
    assert!(!ex.finished());
    assert_eq!(ex.take_output(), None);
}

/// Yields `left` times, each time after using up the budget, then returns 0.
struct Yielder {
    left: u32,
    worked: bool,
    clock: Clock,
}

impl Task<i32> for Yielder {
    fn poll(&mut self, cx: &mut TaskContext<Yielder, i32>) -> Polled<i32> {
        while self.left > 0 {
            if !self.worked {
                self.clock.advance(11);
                self.worked = true;
            }
            if let Polled::Pending = YieldIfNeeded.poll(cx, self.clock.now()) {
                return Polled::Pending;
            }
            self.worked = false;
            self.left -= 1;
        }
        Polled::Ready(0)
    }
}

#[test]
fn yield_loop_takes_a_turn_per_yield() {
    let clock = Clock::Fake(Rc::new(Cell::new(0)));
    let root = Yielder { left: 5, worked: false, clock: clock.clone() };
    let ex = ExecutorConfig::new().preempt_nanos(10).run(root);
    let mut kernel = Kernel::new();
    let (r, rounds) = drive(ex, &clock, &mut kernel);
    assert_eq!(r, 0);
    assert!(rounds >= 5);
    // Each of the five polls that used up the budget was reported.
    assert_eq!(kernel.warnings, 5);
}

/// Spawns a child that returns 41, joins it and returns the value plus one.
enum Family {
    Parent { child: Option<JoinHandle>, polls: Rc<Cell<u32>> },
    Child,
}

impl Task<i32> for Family {
    fn poll(&mut self, cx: &mut TaskContext<Family, i32>) -> Polled<i32> {
        match self {
            Family::Child => Polled::Ready(41),
            Family::Parent { child, polls } => {
                polls.set(polls.get() + 1);
                if child.is_none() {
                    *child = Some(spawn(cx, Family::Child));
                }
                match child.as_ref().unwrap().poll(cx) {
                    Polled::Ready(v) => Polled::Ready(v + 1),
                    Polled::Pending => Polled::Pending,
                }
            }
        }
    }
}

#[test]
fn join_yields_the_childs_value_and_wakes_the_parent() {
    let polls = Rc::new(Cell::new(0));
    let mut ex = ExecutorConfig::new().run(Family::Parent { child: None, polls: polls.clone() });
    ex.begin_round(0);
    // The root has id 1; it spawns the child, which gets id 2, and suspends.
    assert_eq!(ex.poll_next(), RoundStep::Polled(1));
    assert_eq!(ex.poll_next(), RoundStep::Drained);
    assert!(!ex.finished());
    ex.begin_round(1);
    assert_eq!(ex.poll_next(), RoundStep::Completed(2));
    assert_eq!(ex.poll_next(), RoundStep::Drained);
    // The child's completion has marked the parent ready.
    assert!(!ex.should_wait(true));
    ex.begin_round(2);
    assert_eq!(ex.poll_next(), RoundStep::Completed(1));
    assert!(ex.finished());
    // Both have left the task table; the record of the closes stays.
    assert!(!ex.has_task(1));
    assert!(!ex.has_task(2));
    assert!(ex.has_task(0));
    assert_eq!(polls.get(), 2);
    assert_eq!(ex.take_output(), Some(42));
    assert_eq!(ex.take_output(), None);
}

/// Leaves three descriptors to the executor and returns at once.
struct Dropper;

impl Task<i32> for Dropper {
    fn poll(&mut self, cx: &mut TaskContext<Dropper, i32>) -> Polled<i32> {
        cx.defer_close(7);
        cx.defer_close(8);
        cx.defer_close(9);
        Polled::Ready(3)
    }
}

#[test]
fn deferred_closes_hold_the_loop_until_they_complete() {
    let mut ex = ExecutorConfig::new().run(Dropper);
    ex.begin_round(0);
    assert_eq!(ex.poll_next(), RoundStep::Completed(1));
    // The root is done, but three descriptors wait for their close.
    assert!(!ex.finished());
    assert_eq!(ex.enqueue_closes(), Ok(()));
    assert_eq!(ex.files_closing(), 3);
    assert!(!ex.finished());
    let mut tags = Vec::new();
    loop {
        match ex.next_submission(false, false, false, tags.is_empty(), None).unwrap() {
            SubmitStep::Push(queued) => {
                assert_eq!(queued.entry().get_user_data(), queued.io_id() as u64);
                assert_eq!(queued.entry().get_opcode(), Close::CODE as u32);
                tags.push(queued.io_id());
            }
            SubmitStep::FinalFlush => break,
            _ => panic!("three entries were pushed"),
        }
    }
    // Every close carries the reserved io-id.
    assert_eq!(tags, vec![0, 0, 0]);
    assert_eq!(ex.complete(0, 0, false), Ok(()));
    assert_eq!(ex.complete(0, 0, false), Ok(()));
    assert!(!ex.finished());
    assert_eq!(ex.complete(0, 0, false), Ok(()));
    assert_eq!(ex.files_closing(), 0);
    assert!(ex.finished());
    // One close too many would take the counter below zero.
    assert_eq!(ex.complete(0, 0, false), Err(Fault::CounterUnderflow));
    assert_eq!(ex.take_output(), Some(3));
}

/// Sleeps until the instant 100, then returns 1.
struct Sleeper {
    registered: bool,
}

impl Task<i32> for Sleeper {
    fn poll(&mut self, cx: &mut TaskContext<Sleeper, i32>) -> Polled<i32> {
        if self.registered {
            Polled::Ready(1)
        } else {
            cx.notify_when(100);
            self.registered = true;
            Polled::Pending
        }
    }
}

#[test]
fn a_timer_fires_only_once_its_instant_has_passed() {
    let mut ex = ExecutorConfig::new().run(Sleeper { registered: false });
    ex.begin_round(0);
    assert_eq!(ex.poll_next(), RoundStep::Polled(1));
    assert!(ex.should_wait(true));
    ex.fire_timers(99);
    assert!(ex.should_wait(true));
    // At the instant itself the wakeup is not yet in the past.
    ex.fire_timers(100);
    assert!(ex.should_wait(true));
    ex.fire_timers(101);
    assert!(!ex.should_wait(true));
    ex.begin_round(101);
    assert_eq!(ex.poll_next(), RoundStep::Completed(1));
    assert_eq!(ex.take_output(), Some(1));
}

#[test]
fn idle_passes_poke_nothing_and_sleep_every_sixteenth() {
    let mut ex = ExecutorConfig::new().run(Sleeper { registered: false });
    ex.begin_round(0);
    assert_eq!(ex.poll_next(), RoundStep::Polled(1));
    for _ in 0..15 {
        assert_eq!(ex.idle_pass(10, false), IdleStep::Sync { poke_direct: false, sleep: false });
    }
    assert_eq!(ex.idle_pass(10, false), IdleStep::Sync { poke_direct: false, sleep: true });
    assert_eq!(ex.idle_pass(10, false), IdleStep::Sync { poke_direct: false, sleep: false });
    // A completion ends the wait.
    assert_eq!(ex.idle_pass(10, true), IdleStep::Resume);
    // So does a timer that has fired: the pass that fires it still syncs.
    assert_eq!(ex.idle_pass(101, false), IdleStep::Sync { poke_direct: false, sleep: false });
    assert_eq!(ex.idle_pass(101, false), IdleStep::Resume);
}

#[test]
fn a_long_poll_is_reported_and_ends_the_round() {
    let ex = ExecutorConfig::new().preempt_nanos(1_000).run(Dropper);
    assert!(!ex.poll_overran(500, 1_500));
    assert!(ex.poll_overran(500, 1_501));
    assert!(!ex.poll_overran(500, 400));
    let mut ex = ex;
    ex.begin_round(2_000);
    assert!(!ex.round_expired(3_000));
    assert!(ex.round_expired(3_001));
    assert!(!ex.round_expired(1_000));
}

#[test]
fn config_defaults_and_builders() {
    let config = ExecutorConfig::new();
    assert_eq!(config.get_ring_depth(), 64);
    assert_eq!(config.get_preempt_nanos(), 10_000_000);
    assert_eq!(config.get_preempt_nanos(), Duration::from_millis(10).as_nanos() as u64);
    let config = config.ring_depth(8).preempt_nanos(5);
    assert_eq!(config.get_ring_depth(), 8);
    assert_eq!(config.get_preempt_nanos(), 5);
    let config = config.preempt_duration(Duration::from_micros(3));
    assert_eq!(config.get_ring_depth(), 8);
    assert_eq!(config.get_preempt_nanos(), 3_000);
    let config = config.preempt_duration(Duration::MAX);
    assert_eq!(config.get_preempt_nanos(), u64::MAX);
    let config = ExecutorConfig::default();
    assert_eq!(config.get_ring_depth(), 64);
    assert_eq!(config.get_preempt_nanos(), 10_000_000);
    assert_eq!(budget_from_nanos(0), 0);
    assert_eq!(budget_from_nanos(u64::MAX as u128), u64::MAX);
    assert_eq!(budget_from_nanos(u64::MAX as u128 + 1), u64::MAX);
}

/// Queues five closes and three operations on each ring, waits for the six
/// results and returns how many it got.
struct Busy {
    ops: Vec<Operation>,
    got: i32,
}

impl Task<i32> for Busy {
    fn poll(&mut self, cx: &mut TaskContext<Busy, i32>) -> Polled<i32> {
        if self.ops.is_empty() {
            for fd in 0..5 {
                cx.defer_close(100 + fd);
            }
            for i in 0..6 {
                let mut op = Operation::new();
                op.start(cx, Nop::new().build(), i % 2 == 1);
                self.ops.push(op);
            }
            return Polled::Pending;
        }
        let mut waiting = Vec::new();
        for op in self.ops.drain(..) {
            match op.poll(cx) {
                Polled::Ready(outcome) => {
                    assert_eq!(outcome, Ok(0));
                    self.got += 1;
                }
                Polled::Pending => waiting.push(op),
            }
        }
        self.ops = waiting;
        if self.got == 6 {
            Polled::Ready(self.got)
        } else {
            Polled::Pending
        }
    }
}

#[test]
fn the_loop_flushes_both_queues_and_drains_their_completions() {
    let clock = Clock::Fake(Rc::new(Cell::new(0)));
    let mut kernel = Kernel::new();
    let ex = ExecutorConfig::new().run(Busy { ops: Vec::new(), got: 0 });
    let (r, _) = drive(ex, &clock, &mut kernel);
    assert_eq!(r, 6);
    // Eleven entries went through regions of two entries each.
    assert!(kernel.submits >= 6);
    assert!(kernel.cq.is_empty() && kernel.dio_cq.is_empty());
    assert!(kernel.sq.is_empty() && kernel.dio_sq.is_empty());
}

#[test]
fn the_loop_waits_for_a_timer_and_sleeps_meanwhile() {
    let clock = Clock::Fake(Rc::new(Cell::new(0)));
    let mut kernel = Kernel::new();
    let ex = ExecutorConfig::new().run(Sleeper { registered: false });
    let (r, rounds) = drive(ex, &clock, &mut kernel);
    assert_eq!(r, 1);
    assert_eq!(rounds, 2);
    // The clock moves by one with each idle pass, and the timer is for 100.
    assert!(clock.now() > 100);
    assert_eq!(kernel.sleeps, 6);
}

#[test]
fn a_failed_submit_ends_the_run() {
    let mut ex = ExecutorConfig::new().run(Busy { ops: Vec::new(), got: 0 });
    let seen = Observation {
        now: 0,
        sq_full: false,
        sq_empty: true,
        cq_empty: true,
        dio_sq_full: false,
        dio_sq_empty: true,
        dio_cq_empty: true,
    };
    let event = |submitted| Event { seen, submitted, completions: Vec::new() };
    // Head, poll, clock, then the flush of the buffered queue.
    assert!(matches!(ex.step(event(None)), Ok(Action::Observe)));
    assert_eq!(ex.phase(), Phase::Polling);
    assert!(matches!(ex.step(event(None)), Ok(Action::Observe)));
    assert_eq!(ex.phase(), Phase::Polled { started: 0 });
    assert!(matches!(ex.step(event(None)), Ok(Action::Observe)));
    assert_eq!(ex.phase(), Phase::Flushing { last: false, direct: false, awaiting: false });
    assert!(matches!(ex.step(event(None)), Ok(Action::Push { direct: false, .. })));
    let full = Observation { sq_full: true, sq_empty: false, ..seen };
    let step = ex.step(Event { seen: full, submitted: None, completions: Vec::new() });
    assert!(matches!(step, Ok(Action::Submit { direct: false })));
    assert_eq!(ex.phase(), Phase::Flushing { last: false, direct: false, awaiting: true });
    // A busy kernel ends the flush with one more submit, which may be busy too.
    let step = ex.step(Event { seen: full, submitted: Some(SubmitOutcome::Busy), completions: Vec::new() });
    assert!(matches!(step, Ok(Action::Submit { direct: false })));
    assert_eq!(ex.phase(), Phase::Flushed { last: false, direct: false });
    let step = ex.step(Event { seen: full, submitted: Some(SubmitOutcome::Busy), completions: Vec::new() });
    assert!(matches!(step, Ok(Action::Observe)));
    assert_eq!(ex.phase(), Phase::Flushing { last: false, direct: true, awaiting: false });
    assert!(matches!(ex.step(event(None)), Ok(Action::Push { direct: true, .. })));
    let dio_full = Observation { dio_sq_full: true, dio_sq_empty: false, ..seen };
    let step = ex.step(Event { seen: dio_full, submitted: None, completions: Vec::new() });
    assert!(matches!(step, Ok(Action::Submit { direct: true })));
    let step = ex.step(Event { seen: dio_full, submitted: Some(SubmitOutcome::Fatal), completions: Vec::new() });
    assert!(matches!(step, Err(Fault::SubmitFailed)));
}

#[test]
fn an_unknown_completion_ends_the_run() {
    let mut ex = ExecutorConfig::new().run(Sleeper { registered: false });
    let seen = Observation {
        now: 0,
        sq_full: false,
        sq_empty: true,
        cq_empty: true,
        dio_sq_full: false,
        dio_sq_empty: true,
        dio_cq_empty: true,
    };
    let mut drained = false;
    for _ in 0..20 {
        match ex.step(Event { seen, submitted: Some(SubmitOutcome::Submitted), completions: Vec::new() }) {
            Ok(Action::Drain) => {
                drained = true;
                break;
            }
            Ok(_) => {}
            Err(fault) => panic!("{:?}", fault),
        }
    }
    assert!(drained);
    let completions = vec![Completion { user_data: 9, result: 0, direct: false }];
    let step = ex.step(Event { seen, submitted: None, completions });
    assert!(matches!(step, Err(Fault::UnknownCompletion)));
}

/// Spawns a child, then works for a long time without yielding before it
/// waits for the child.
enum Hog {
    Parent { child: Option<JoinHandle>, clock: Clock },
    Child,
}

impl Task<i32> for Hog {
    fn poll(&mut self, cx: &mut TaskContext<Hog, i32>) -> Polled<i32> {
        match self {
            Hog::Child => Polled::Ready(7),
            Hog::Parent { child, clock } => {
                if child.is_none() {
                    *child = Some(spawn(cx, Hog::Child));
                    clock.advance(1_000);
                }
                child.as_ref().unwrap().poll(cx)
            }
        }
    }
}

#[test]
fn a_slow_task_is_reported_and_the_others_still_run() {
    let clock = Clock::Fake(Rc::new(Cell::new(0)));
    let mut kernel = Kernel::new();
    let root = Hog::Parent { child: None, clock: clock.clone() };
    let ex = ExecutorConfig::new().preempt_nanos(10).run(root);
    let (r, rounds) = drive(ex, &clock, &mut kernel);
    assert_eq!(r, 7);
    assert_eq!(kernel.warnings, 1);
    assert!(rounds >= 2);
}
