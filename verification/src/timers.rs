//! Wakeups registered for a later instant.

use crate::ready::ReadySet;
use vstd::prelude::*;

verus! {

/// The registered wakeups, each an instant (in nanoseconds on the caller's
/// clock) and the task to wake.
pub struct DeadlineSet {
    entries: Vec<(u64, usize)>,
}

impl View for DeadlineSet {
    type V = Seq<(u64, usize)>;

    closed spec fn view(&self) -> Seq<(u64, usize)> {
        self.entries@
    }
}

/// A wakeup stays registered at `now` unless its instant is strictly in the
/// past.
pub open spec fn still_pending(now: u64) -> spec_fn((u64, usize)) -> bool {
    |e: (u64, usize)| e.0 >= now
}

/// The tasks that have a wakeup in `wakeups` whose instant is before `now`.
pub open spec fn elapsed_tasks(wakeups: Seq<(u64, usize)>, now: u64) -> Set<usize> {
    Set::new(
        |task: usize|
            exists|i: int|
                0 <= i < wakeups.len() && (#[trigger] wakeups[i]).0 < now && wakeups[i].1 == task,
    )
}

proof fn lemma_filter_step(s: Seq<(u64, usize)>, i: int, now: u64)
    requires
        0 <= i < s.len(),
    ensures
        s.take(i + 1).filter(still_pending(now)) == if s[i].0 >= now {
            s.take(i).filter(still_pending(now)).push(s[i])
        } else {
            s.take(i).filter(still_pending(now))
        },
{
    reveal(Seq::filter);
    assert(s.take(i + 1).drop_last() =~= s.take(i));
    assert(s.take(i + 1).last() == s[i]);
}

/// A wakeup for instant `T` fires only at a `now` later than `T`: a task
/// woken by the timers has a wakeup whose instant is before `now`, a wakeup
/// whose instant is not before `now` stays registered, and only such
/// wakeups stay.
pub proof fn lemma_timers_fire_after_their_instant(wakeups: Seq<(u64, usize)>, now: u64)
    ensures
        forall|task: usize| #[trigger]
            elapsed_tasks(wakeups, now).contains(task) ==> exists|i: int|
                0 <= i < wakeups.len() && (#[trigger] wakeups[i]).0 < now && wakeups[i].1 == task,
        forall|i: int|
            0 <= i < wakeups.len() && (#[trigger] wakeups[i]).0 >= now ==> wakeups.filter(
                still_pending(now),
            ).contains(wakeups[i]),
        forall|i: int|
            0 <= i < wakeups.filter(still_pending(now)).len() ==> (#[trigger] wakeups.filter(
                still_pending(now),
            )[i]).0 >= now,
{
    broadcast use vstd::seq_lib::group_filter_ensures;

}

impl DeadlineSet {
    pub fn new() -> (d: Self)
        ensures
            d@ == Seq::<(u64, usize)>::empty(),
    {
        DeadlineSet { entries: Vec::new() }
    }

    /// Registers a wakeup of `task` at or after `when`.
    pub fn register(&mut self, when: u64, task: usize)
        ensures
            final(self)@ == old(self)@.push((when, task)),
    {
        self.entries.push((when, task));
    }

    pub fn is_empty(&self) -> (empty: bool)
        ensures
            empty == (self@.len() == 0),
    {
        self.entries.len() == 0
    }
}

/// Fires the wakeups whose instant is strictly before `now`: they leave
/// `notify_when` and their tasks are marked ready in `to_notify`. The others
/// stay, in the order in which they were registered.
pub fn notify_timers(notify_when: &mut DeadlineSet, to_notify: &mut ReadySet, now: u64)
    ensures
        final(notify_when)@ == old(notify_when)@.filter(still_pending(now)),
        final(to_notify)@ == old(to_notify)@.union(elapsed_tasks(old(notify_when)@, now)),
{
    let mut kept: Vec<(u64, usize)> = Vec::new();
    let n: usize = notify_when.entries.len();
    let mut i: usize = 0;
    assert(notify_when@.take(0).filter(still_pending(now)) =~= Seq::<(u64, usize)>::empty()) by {
        reveal(Seq::filter);
    }
    assert(to_notify@ =~= old(to_notify)@.union(elapsed_tasks(notify_when@.take(0), now)));
    while i < n
        invariant
            i <= n,
            n == notify_when.entries@.len(),
            notify_when.entries@ == old(notify_when).entries@,
            kept@ == notify_when@.take(i as int).filter(still_pending(now)),
            to_notify@ == old(to_notify)@.union(elapsed_tasks(notify_when@.take(i as int), now)),
        decreases n - i,
    {
        let entry = notify_when.entries[i];
        let ghost before = to_notify@;
        proof {
            lemma_filter_step(notify_when@, i as int, now);
        }
        if entry.0 >= now {
            kept.push(entry);
        } else {
            to_notify.insert(entry.1);
        }
        proof {
            let s = notify_when@;
            let a = elapsed_tasks(s.take(i as int), now);
            let b = elapsed_tasks(s.take(i + 1), now);
            assert forall|t: usize| b.contains(t) <==> (a.contains(t) || (entry.0 < now && t
                == entry.1)) by {
                if a.contains(t) {
                    let k = choose|k: int|
                        0 <= k < s.take(i as int).len() && (#[trigger] s.take(i as int)[k]).0 < now
                            && s.take(i as int)[k].1 == t;
                    assert(s.take(i + 1)[k] == s.take(i as int)[k]);
                }
                if entry.0 < now && t == entry.1 {
                    assert(s.take(i + 1)[i as int] == entry);
                }
                if b.contains(t) {
                    let k = choose|k: int|
                        0 <= k < s.take(i + 1).len() && (#[trigger] s.take(i + 1)[k]).0 < now
                            && s.take(i + 1)[k].1 == t;
                    if k < i {
                        assert(s.take(i as int)[k] == s.take(i + 1)[k]);
                    }
                }
            }
            assert(to_notify@ =~= old(to_notify)@.union(b));
        }
        i += 1;
    }
    assert(notify_when@.take(n as int) =~= notify_when@);
    notify_when.entries = kept;
}

} // verus!
