//! The loop of a run, one decision at a time.
//!
//! The caller performs what an [`Action`] asks for, looks at the clock and
//! the rings, and hands the [`Event`] to [`Executor::step`], until the
//! action is [`Action::Exit`].

use crate::context::{elapsed, ContextModel, Task};
use crate::executor::{Executor, ExecutorModel, IdleStep, Phase, RoundStep};
use crate::ring::{closing_step, Fault, Queued, SubmitOutcome, SubmitStep};
use vstd::prelude::*;

verus! {

/// What the caller sees when it looks at the clock and at both rings.
#[derive(Clone, Copy, Debug)]
pub struct Observation {
    /// The clock, in nanoseconds.
    pub now: u64,
    /// The buffered ring's submission region is full.
    pub sq_full: bool,
    /// The buffered ring's submission region is empty.
    pub sq_empty: bool,
    /// The buffered ring's completion queue is empty.
    pub cq_empty: bool,
    /// The direct-polled ring's submission region is full.
    pub dio_sq_full: bool,
    /// The direct-polled ring's submission region is empty.
    pub dio_sq_empty: bool,
    /// The direct-polled ring's completion queue is empty.
    pub dio_cq_empty: bool,
}

impl Observation {
    /// Nothing is in either ring.
    pub open spec fn rings_idle(self) -> bool {
        self.sq_empty && self.cq_empty && self.dio_sq_empty && self.dio_cq_empty
    }

    /// A completion waits in one of the completion queues.
    pub open spec fn completions_waiting(self) -> bool {
        !self.cq_empty || !self.dio_cq_empty
    }

    /// Whether the submission region of the chosen ring is full.
    pub open spec fn full(self, direct: bool) -> bool {
        if direct {
            self.dio_sq_full
        } else {
            self.sq_full
        }
    }

    /// Whether the submission region of the chosen ring is empty.
    pub open spec fn empty(self, direct: bool) -> bool {
        if direct {
            self.dio_sq_empty
        } else {
            self.sq_empty
        }
    }
}

/// One completion as the kernel reported it.
#[derive(Clone, Copy, Debug)]
pub struct Completion {
    pub user_data: u64,
    pub result: i32,
    /// It came from the direct-polled ring.
    pub direct: bool,
}

/// What the caller reports after it has done what the last action asked.
pub struct Event {
    pub seen: Observation,
    /// How the submit went, if the last action asked for one.
    pub submitted: Option<SubmitOutcome>,
    /// The completions, buffered ring first, if the last action asked for
    /// them.
    pub completions: Vec<Completion>,
}

/// What the caller does before it reports again.
pub enum Action {
    /// The run is over.
    Exit,
    /// Nothing.
    Observe,
    /// Sync the buffered ring's completion queue; with `poke_direct`,
    /// issue a zero-wait submit on the direct-polled ring, report how it
    /// went and sync its completion queue; with `sleep`, sleep for a
    /// moment.
    Sync { poke_direct: bool, sleep: bool },
    /// Warn that a task used more than the preemption budget in one poll.
    WarnSlowPoll,
    /// Push the entry into the submission region of the chosen ring.
    Push { direct: bool, queued: Queued },
    /// Submit on the chosen ring and report how it went.
    Submit { direct: bool },
    /// Sync both completion queues and report every completion they hold.
    Drain,
}

/// The phase that follows the flush of one queue: the direct queue after
/// the buffered one; after both, the completions at the end of a round,
/// the next poll within it.
pub open spec fn phase_after_flush(last: bool, direct: bool) -> Phase {
    if !direct {
        Phase::Flushing { last, direct: true, awaiting: false }
    } else if last {
        Phase::Draining
    } else {
        Phase::Polling
    }
}

/// What the caller is asked as a phase begins: for the completions when
/// they are to be drained, and for nothing otherwise.
pub open spec fn action_entering(phase: Phase) -> Action {
    if phase == Phase::Draining {
        Action::Drain
    } else {
        Action::Observe
    }
}

/// The flushes that follow a poll: those that end the round if its budget
/// is used up.
pub open spec fn flush_after_poll(expired: bool) -> Phase {
    Phase::Flushing { last: expired, direct: false, awaiting: false }
}

impl<T, V> ExecutorModel<T, V> {
    pub open spec fn with_phase(self, phase: Phase) -> Self {
        ExecutorModel { phase, ..self }
    }

    /// The state after the completions `cs` have been taken in, front
    /// first, or the fault of the first that cannot be.
    pub open spec fn complete_all(self, cs: Seq<Completion>) -> Result<Self, Fault>
        decreases cs.len(),
    {
        if cs.len() == 0 {
            Ok(self)
        } else {
            match self.completion_fault(cs[0].user_data, cs[0].direct) {
                Some(fault) => Err(fault),
                None => self.complete(cs[0].user_data, cs[0].result, cs[0].direct).complete_all(
                    cs.skip(1),
                ),
            }
        }
    }

    /// At the head of the loop: the run ends if it is finished, waits if
    /// nothing can make progress, and begins a round otherwise.
    pub open spec fn head_stepped(self, seen: Observation, after: Self, r: Result<Action, Fault>) -> bool {
        if self.finished() {
            r == Ok::<Action, Fault>(Action::Exit) && after == self
        } else if self.idle(seen.rings_idle()) {
            r == Ok::<Action, Fault>(Action::Observe) && after == self.with_phase(Phase::Waiting)
        } else {
            &&& r == Ok::<Action, Fault>(Action::Observe)
            &&& after.phase == Phase::Polling
            &&& self.round_begun(seen.now, after.with_phase(self.phase))
        }
    }

    /// In the idle wait: a failed poke is fatal; a completion or a ready
    /// task ends the wait and begins a round; otherwise the timers fire
    /// and the caller syncs.
    pub open spec fn wait_stepped(self, event: Event, after: Self, r: Result<Action, Fault>) -> bool {
        if event.submitted == Some(SubmitOutcome::Fatal) {
            r == Err::<Action, Fault>(Fault::SubmitFailed) && after == self
        } else if event.seen.completions_waiting() || self.cx.ready != Set::<usize>::empty() {
            &&& r == Ok::<Action, Fault>(Action::Observe)
            &&& after.phase == Phase::Polling
            &&& (ExecutorModel { idle_passes: 0, ..self }).round_begun(
                event.seen.now,
                after.with_phase(self.phase),
            )
        } else {
            &&& r == Ok::<Action, Fault>(
                Action::Sync {
                    poke_direct: self.cx.direct_in_flight > 0,
                    sleep: self.idle_sleeps(),
                },
            )
            &&& after == self.idle_synced(event.seen.now)
        }
    }

    /// In a round: the next task is polled. A drained round goes on to the
    /// flushes that end it; after a poll the caller reads the clock.
    pub open spec fn poll_stepped(self, seen: Observation, after: Self, r: Result<Action, Fault>) -> bool {
        let polled = after.with_phase(self.phase);
        &&& r == Ok::<Action, Fault>(Action::Observe)
        &&& if self.scratch.len() == 0 {
            after.phase == flush_after_poll(true) && self.round_stepped(polled, RoundStep::Drained)
        } else {
            let id = self.scratch[0];
            ||| after.phase == Phase::Polling && self.round_stepped(polled, RoundStep::Skipped(id))
            ||| after.phase == (Phase::Polled { started: seen.now }) && (self.round_stepped(
                polled,
                RoundStep::Polled(id),
            ) || self.round_stepped(polled, RoundStep::Completed(id)))
        }
    }

    /// After a poll that began at `started`: the caller is warned if the
    /// poll took longer than the budget; the round ends if it has used up
    /// the budget.
    pub open spec fn polled_stepped(
        self,
        started: u64,
        seen: Observation,
        after: Self,
        r: Result<Action, Fault>,
    ) -> bool {
        let expired = elapsed(self.cx.round_start, seen.now) > self.cx.budget;
        if elapsed(started, seen.now) > self.cx.budget {
            r == Ok::<Action, Fault>(Action::WarnSlowPoll) && after == self.with_phase(
                Phase::Warned { expired },
            )
        } else {
            r == Ok::<Action, Fault>(Action::Observe) && after == self.with_phase(
                flush_after_poll(expired),
            )
        }
    }

    /// In the flush of a queue. Entries leave front first, one per step; a
    /// full region
    /// is submitted first; a busy kernel ends the pushing and leaves the
    /// rest queued; the flush ends with one more submit if it is forced (as
    /// the direct-polled ring's is at the end of a round) or the region
    /// holds anything. A submit that fails otherwise, or is not reported,
    /// is fatal.
    pub open spec fn flush_stepped(
        self,
        last: bool,
        direct: bool,
        awaiting: bool,
        event: Event,
        after: Self,
        r: Result<Action, Fault>,
    ) -> bool {
        let before_q = self.cx.queue(direct);
        let after_q = after.cx.queue(direct);
        let flushed = if awaiting {
            match event.submitted {
                Some(outcome) => Some(outcome),
                None => Some(SubmitOutcome::Fatal),
            }
        } else {
            None
        };
        let closing = closing_step(last && direct, event.seen.empty(direct));
        &&& after == (ExecutorModel {
            cx: ContextModel {
                io_queue: if direct {
                    self.cx.io_queue
                } else {
                    after_q
                },
                dio_queue: if direct {
                    after_q
                } else {
                    self.cx.dio_queue
                },
                ..self.cx
            },
            phase: after.phase,
            ..self
        })
        &&& if flushed == Some(SubmitOutcome::Fatal) {
            &&& r == Err::<Action, Fault>(Fault::SubmitFailed)
            &&& after_q == before_q
            &&& after.phase == self.phase
        } else if flushed == Some(SubmitOutcome::Busy) || before_q.len() == 0 {
            &&& after_q == before_q
            &&& if closing == SubmitStep::FinalFlush {
                &&& r == Ok::<Action, Fault>(Action::Submit { direct })
                &&& after.phase == (Phase::Flushed { last, direct })
            } else {
                &&& after.phase == phase_after_flush(last, direct)
                &&& r == Ok::<Action, Fault>(action_entering(after.phase))
            }
        } else if flushed.is_none() && event.seen.full(direct) {
            &&& after_q == before_q
            &&& r == Ok::<Action, Fault>(Action::Submit { direct })
            &&& after.phase == (Phase::Flushing { last, direct, awaiting: true })
        } else {
            &&& after_q == before_q.subrange(1, before_q.len() as int)
            &&& r == Ok::<Action, Fault>(Action::Push { direct, queued: before_q[0] })
            &&& after.phase == (Phase::Flushing { last, direct, awaiting: false })
        }
    }

    /// After the submit that ends a flush: a busy kernel is no error.
    pub open spec fn flushed_stepped(
        self,
        last: bool,
        direct: bool,
        event: Event,
        after: Self,
        r: Result<Action, Fault>,
    ) -> bool {
        if event.submitted.is_none() || event.submitted == Some(SubmitOutcome::Fatal) {
            r == Err::<Action, Fault>(Fault::SubmitFailed) && after == self
        } else {
            after == self.with_phase(phase_after_flush(last, direct)) && r == Ok::<Action, Fault>(
                action_entering(after.phase),
            )
        }
    }

    /// At the end of a turn: the completions are taken in, the timers
    /// fire, and the deferred closes are queued. A fault ends the run.
    pub open spec fn drain_stepped(self, event: Event, after: Self, r: Result<Action, Fault>) -> bool {
        match self.complete_all(event.completions@) {
            Err(fault) => r == Err::<Action, Fault>(fault),
            Ok(drained) => {
                let fired = drained.timers_fired(event.seen.now);
                if fired.closes_fit() {
                    r == Ok::<Action, Fault>(Action::Observe) && after
                        == fired.closes_enqueued().with_phase(Phase::Head)
                } else {
                    r == Err::<Action, Fault>(Fault::CounterOverflow)
                }
            },
        }
    }

    /// What one step makes of a state and an event.
    pub open spec fn stepped(self, event: Event, after: Self, r: Result<Action, Fault>) -> bool {
        match self.phase {
            Phase::Head => self.head_stepped(event.seen, after, r),
            Phase::Waiting => self.wait_stepped(event, after, r),
            Phase::Polling => self.poll_stepped(event.seen, after, r),
            Phase::Polled { started } => self.polled_stepped(started, event.seen, after, r),
            Phase::Warned { expired } => r == Ok::<Action, Fault>(Action::Observe) && after
                == self.with_phase(flush_after_poll(expired)),
            Phase::Flushing { last, direct, awaiting } => self.flush_stepped(
                last,
                direct,
                awaiting,
                event,
                after,
                r,
            ),
            Phase::Flushed { last, direct } => self.flushed_stepped(last, direct, event, after, r),
            Phase::Draining => self.drain_stepped(event, after, r),
        }
    }
}

impl<T: Task<V>, V> Executor<T, V> {
    /// Takes the run one step further: decides, from where the run stands
    /// and what the caller reports, what the caller does next.
    pub fn step(&mut self, event: Event) -> (r: Result<Action, Fault>)
        ensures
            old(self)@.stepped(event, final(self)@, r),
    {
        let seen = event.seen;
        match self.phase() {
            Phase::Head => {
                if self.finished() {
                    return Ok(Action::Exit);
                }
                let rings_idle = seen.sq_empty && seen.cq_empty && seen.dio_sq_empty
                    && seen.dio_cq_empty;
                if self.should_wait(rings_idle) {
                    self.set_phase(Phase::Waiting);
                } else {
                    self.begin_round(seen.now);
                    self.set_phase(Phase::Polling);
                }
                Ok(Action::Observe)
            },
            Phase::Waiting => {
                match event.submitted {
                    Some(SubmitOutcome::Fatal) => {
                        return Err(Fault::SubmitFailed);
                    },
                    _ => {},
                }
                match self.idle_pass(seen.now, !seen.cq_empty || !seen.dio_cq_empty) {
                    IdleStep::Resume => {
                        self.begin_round(seen.now);
                        self.set_phase(Phase::Polling);
                        Ok(Action::Observe)
                    },
                    IdleStep::Sync { poke_direct, sleep } => Ok(
                        Action::Sync { poke_direct, sleep },
                    ),
                }
            },
            Phase::Polling => {
                match self.poll_next() {
                    RoundStep::Drained => {
                        self.set_phase(
                            Phase::Flushing { last: true, direct: false, awaiting: false },
                        );
                    },
                    RoundStep::Skipped(_) => {},
                    _ => {
                        self.set_phase(Phase::Polled { started: seen.now });
                    },
                }
                Ok(Action::Observe)
            },
            Phase::Polled { started } => {
                let expired = self.round_expired(seen.now);
                if self.poll_overran(started, seen.now) {
                    self.set_phase(Phase::Warned { expired });
                    Ok(Action::WarnSlowPoll)
                } else {
                    self.set_phase(Phase::Flushing { last: expired, direct: false, awaiting: false });
                    Ok(Action::Observe)
                }
            },
            Phase::Warned { expired } => {
                self.set_phase(Phase::Flushing { last: expired, direct: false, awaiting: false });
                Ok(Action::Observe)
            },
            Phase::Flushing { last, direct, awaiting } => {
                let flushed = if awaiting {
                    match event.submitted {
                        Some(outcome) => Some(outcome),
                        None => Some(SubmitOutcome::Fatal),
                    }
                } else {
                    None
                };
                let full = if direct {
                    seen.dio_sq_full
                } else {
                    seen.sq_full
                };
                let empty = if direct {
                    seen.dio_sq_empty
                } else {
                    seen.sq_empty
                };
                let step = self.next_submission(direct, last && direct, full, empty, flushed);
                match step {
                    Err(fault) => Err(fault),
                    Ok(SubmitStep::Push(queued)) => {
                        self.set_phase(Phase::Flushing { last, direct, awaiting: false });
                        Ok(Action::Push { direct, queued })
                    },
                    Ok(SubmitStep::Flush) => {
                        self.set_phase(Phase::Flushing { last, direct, awaiting: true });
                        Ok(Action::Submit { direct })
                    },
                    Ok(SubmitStep::FinalFlush) => {
                        self.set_phase(Phase::Flushed { last, direct });
                        Ok(Action::Submit { direct })
                    },
                    Ok(SubmitStep::Done) => Ok(self.leave_flush(last, direct)),
                }
            },
            Phase::Flushed { last, direct } => {
                match event.submitted {
                    None => Err(Fault::SubmitFailed),
                    Some(SubmitOutcome::Fatal) => Err(Fault::SubmitFailed),
                    Some(_) => Ok(self.leave_flush(last, direct)),
                }
            },
            Phase::Draining => {
                let n: usize = event.completions.len();
                let mut i: usize = 0;
                assert(event.completions@.skip(0) =~= event.completions@);
                while i < n
                    invariant
                        i <= n,
                        n == event.completions@.len(),
                        old(self)@.phase == Phase::Draining,
                        old(self)@.complete_all(event.completions@) == self@.complete_all(
                            event.completions@.skip(i as int),
                        ),
                    decreases n - i,
                {
                    let c = event.completions[i];
                    assert(event.completions@.skip(i as int)[0] == c);
                    assert(event.completions@.skip(i as int).skip(1) =~= event.completions@.skip(
                        i + 1,
                    ));
                    match self.complete(c.user_data, c.result, c.direct) {
                        Err(fault) => {
                            return Err(fault);
                        },
                        Ok(()) => {},
                    }
                    i += 1;
                }
                self.fire_timers(seen.now);
                match self.enqueue_closes() {
                    Err(fault) => {
                        return Err(fault);
                    },
                    Ok(()) => {},
                }
                self.set_phase(Phase::Head);
                Ok(Action::Observe)
            },
        }
    }

    /// Leaves the flush of one queue for the phase that follows it.
    fn leave_flush(&mut self, last: bool, direct: bool) -> (action: Action)
        ensures
            final(self)@ == old(self)@.with_phase(phase_after_flush(last, direct)),
            action == action_entering(phase_after_flush(last, direct)),
    {
        if !direct {
            self.set_phase(Phase::Flushing { last, direct: true, awaiting: false });
            Action::Observe
        } else if last {
            self.set_phase(Phase::Draining);
            Action::Drain
        } else {
            self.set_phase(Phase::Polling);
            Action::Observe
        }
    }
}

} // verus!
