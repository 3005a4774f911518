//! Time keeping for components that run at different clock rates.
//!
//! Each component has a thread that counts how far it has come, in jiffies:
//! a second has 2^64 - 1 of them, and a cycle of a component with the
//! frequency f has that many divided by f. The scheduler rebases all threads
//! on the one that is least far, so that the counts stay small.

use vstd::prelude::*;

verus! {

/// Amount of time in units of 2^-64 seconds.
pub type Jiffies = u128;

/// The jiffies in one second.
pub const JIFFIES_PER_SECOND: u128 = 0xffff_ffff_ffff_ffff;

/// An event that a thread has been asked to raise: the handle under which
/// the driver knows what to do, and the time at which it is due.
#[derive(Clone, Copy, Debug, PartialEq, Eq, Structural)]
pub struct SchedulerThreadEntry {
    pub func: usize,
    pub time: Jiffies,
}

/// The clock of one component.
#[derive(Clone, Debug)]
pub struct SchedulerThread {
    /// Cycles per second.
    pub frequency: u128,
    /// Jiffies per cycle.
    pub scalar: Jiffies,
    /// How far the component has come.
    pub steps: Jiffies,
    pub next_event_time: Jiffies,
    pub entries: Vec<SchedulerThreadEntry>,
}

/// The handles of the entries that are due at the time `now`, in the order
/// of the entries.
pub open spec fn due(entries: Seq<SchedulerThreadEntry>, now: Jiffies) -> Seq<usize>
    decreases entries.len(),
{
    if entries.len() == 0 {
        Seq::empty()
    } else if entries.last().time <= now {
        due(entries.drop_last(), now).push(entries.last().func)
    } else {
        due(entries.drop_last(), now)
    }
}

/// How far each of `threads` has come.
pub open spec fn counts(threads: Seq<&mut SchedulerThread>) -> Seq<Jiffies> {
    Seq::new(threads.len(), |i: int| threads[i].steps)
}

/// The least of `counts`; zero where there are none.
pub open spec fn least(counts: Seq<Jiffies>) -> Jiffies
    decreases counts.len(),
{
    if counts.len() == 0 {
        0
    } else if counts.len() == 1 {
        counts[0]
    } else {
        let rest = least(counts.drop_last());
        if counts.last() < rest {
            counts.last()
        } else {
            rest
        }
    }
}

/// `thread` with its count taken back by `base`.
pub open spec fn rebased(thread: SchedulerThread, base: Jiffies) -> SchedulerThread {
    SchedulerThread { steps: (thread.steps - base) as u128, ..thread }
}

/// The least count is one of the counts, and none of them is smaller.
pub proof fn lemma_least(counts: Seq<Jiffies>)
    requires
        counts.len() > 0,
    ensures
        forall|i: int| 0 <= i < counts.len() ==> least(counts) <= #[trigger] counts[i],
        exists|i: int| 0 <= i < counts.len() && #[trigger] counts[i] == least(counts),
    decreases counts.len(),
{
    if counts.len() == 1 {
        assert(counts[0] == least(counts));
    } else {
        let front = counts.drop_last();
        lemma_least(front);
        let witness = choose|i: int| 0 <= i < front.len() && #[trigger] front[i] == least(front);
        assert(front[witness] == counts[witness]);
        assert forall|i: int| 0 <= i < counts.len() implies least(counts) <= #[trigger] counts[i] by {
            if i < front.len() {
                assert(front[i] == counts[i]);
            }
        }
        if counts.last() < least(front) {
            assert(counts[counts.len() - 1] == least(counts));
        } else {
            assert(counts[witness] == least(counts));
        }
    }
}

/// Taking the least count off every count leaves the least at zero, and
/// keeps every difference between two counts, so that the threads stay in
/// their order.
pub proof fn lemma_rebase_keeps_distances(before: Seq<Jiffies>, after: Seq<Jiffies>)
    requires
        before.len() > 0,
        after.len() == before.len(),
        forall|i: int| 0 <= i < before.len() ==> #[trigger] after[i] == before[i] - least(before),
    ensures
        least(after) == 0,
        forall|i: int, j: int|
            0 <= i < before.len() && 0 <= j < before.len() ==> #[trigger] after[i]
                - #[trigger] after[j] == before[i] - before[j],
        forall|i: int, j: int|
            0 <= i < before.len() && 0 <= j < before.len() ==> (#[trigger] after[i]
                <= #[trigger] after[j] <==> before[i] <= before[j]),
{
    lemma_least(before);
    lemma_least(after);
    let lowest = choose|i: int| 0 <= i < before.len() && #[trigger] before[i] == least(before);
    assert(after[lowest] == 0);
}

impl SchedulerThread {
    /// A thread for a component that runs at `freq` cycles per second.
    pub fn new(freq: u128) -> (thread: SchedulerThread)
        requires
            freq > 0,
        ensures
            thread.frequency == freq,
            thread.scalar == JIFFIES_PER_SECOND / freq,
            thread.steps == 0,
            thread.next_event_time == 0,
            thread.entries@ == Seq::<SchedulerThreadEntry>::empty(),
    {
        SchedulerThread {
            frequency: freq,
            scalar: JIFFIES_PER_SECOND / freq,
            steps: 0,
            next_event_time: 0,
            entries: Vec::new(),
        }
    }

    /// Counts `cycles` cycles, then lets the component do them by calling
    /// `func`, and returns what it returns.
    pub fn step<F>(&mut self, cycles: u128, mut func: F) -> (done: u128) where F: FnMut(u128) -> u128
        requires
            old(self).steps + old(self).scalar * cycles <= u128::MAX,
            call_requires(func, (cycles,)),
        ensures
            *final(self) == (SchedulerThread {
                steps: (old(self).steps + old(self).scalar * cycles) as u128,
                ..*old(self)
            }),
            call_ensures(func, (cycles,), done),
    {
        assert(self.scalar * cycles <= u128::MAX) by (nonlinear_arith)
            requires
                self.steps + self.scalar * cycles <= u128::MAX,
                self.steps >= 0,
        ;
        self.steps = self.steps + self.scalar * cycles;
        func(cycles)
    }

    /// Looks through the entries and returns the handles of those that are
    /// due, in their order, for the driver to raise. The entries stay, and
    /// the time of the next event is cleared, so that the next
    /// synchronization looks again.
    pub fn calculate_next_event(&mut self) -> (raised: Vec<usize>)
        ensures
            raised@ == due(old(self).entries@, old(self).steps),
            *final(self) == (SchedulerThread { next_event_time: 0, ..*old(self) }),
    {
        let mut raised: Vec<usize> = Vec::new();
        let mut i: usize = 0;
        while i < self.entries.len()
            invariant
                i <= self.entries.len(),
                *self == *old(self),
                raised@ == due(self.entries@.take(i as int), self.steps),
            decreases self.entries.len() - i,
        {
            proof {
                let longer = self.entries@.take(i + 1);
                assert(longer.drop_last() =~= self.entries@.take(i as int));
                assert(longer.last() == self.entries@[i as int]);
            }
            if self.entries[i].time <= self.steps {
                raised.push(self.entries[i].func);
            }
            i = i + 1;
        }
        assert(self.entries@.take(i as int) =~= self.entries@);
        self.next_event_time = 0;
        raised
    }

    /// Counts one cycle and, when the next event is due, returns what
    /// `calculate_next_event` finds; nothing is raised otherwise.
    pub fn synchronize(&mut self) -> (raised: Vec<usize>)
        requires
            old(self).steps + old(self).scalar <= u128::MAX,
        ensures
            old(self).steps + old(self).scalar >= old(self).next_event_time ==> raised@ == due(
                old(self).entries@,
                (old(self).steps + old(self).scalar) as u128,
            ) && *final(self) == (SchedulerThread {
                steps: (old(self).steps + old(self).scalar) as u128,
                next_event_time: 0,
                ..*old(self)
            }),
            old(self).steps + old(self).scalar < old(self).next_event_time ==> raised@
                == Seq::<usize>::empty() && *final(self) == (SchedulerThread {
                steps: (old(self).steps + old(self).scalar) as u128,
                ..*old(self)
            }),
    {
        self.steps = self.steps + self.scalar;
        if self.steps >= self.next_event_time {
            self.calculate_next_event()
        } else {
            Vec::new()
        }
    }

    /// Asks for the event `func` in `cycles` cycles from now, then returns
    /// what `calculate_next_event` finds.
    pub fn schedule(&mut self, cycles: u128, func: usize) -> (raised: Vec<usize>)
        requires
            old(self).steps + cycles * old(self).scalar <= u128::MAX,
        ensures
            final(self).entries@ == old(self).entries@.push(
                SchedulerThreadEntry {
                    func,
                    time: (old(self).steps + cycles * old(self).scalar) as u128,
                },
            ),
            raised@ == due(final(self).entries@, old(self).steps),
            final(self).frequency == old(self).frequency,
            final(self).scalar == old(self).scalar,
            final(self).steps == old(self).steps,
            final(self).next_event_time == 0,
    {
        assert(cycles * self.scalar <= u128::MAX) by (nonlinear_arith)
            requires
                self.steps + cycles * self.scalar <= u128::MAX,
                self.steps >= 0,
        ;
        let time = self.steps + cycles * self.scalar;
        self.entries.push(SchedulerThreadEntry { func, time });
        self.calculate_next_event()
    }
}

/// The threads of all components.
#[derive(Debug)]
pub struct Scheduler<'a> {
    pub threads: Vec<&'a mut SchedulerThread>,
}

impl<'a> Scheduler<'a> {
    /// A scheduler without threads.
    pub fn new() -> (scheduler: Self)
        ensures
            scheduler.threads@.len() == 0,
    {
        Scheduler { threads: Vec::new() }
    }

    /// The least count among the threads; zero where there are none.
    pub fn minimum(&self) -> (least_count: Jiffies)
        ensures
            least_count == least(counts(self.threads@)),
    {
        if self.threads.len() == 0 {
            return 0;
        }
        let mut least_count = self.threads[0].steps;
        let mut i: usize = 1;
        assert(counts(self.threads@).take(1).len() == 1);
        while i < self.threads.len()
            invariant
                1 <= i <= self.threads.len(),
                least_count == least(counts(self.threads@).take(i as int)),
            decreases self.threads.len() - i,
        {
            proof {
                let longer = counts(self.threads@).take(i + 1);
                assert(longer.drop_last() =~= counts(self.threads@).take(i as int));
                assert(longer.last() == self.threads@[i as int].steps);
            }
            if self.threads[i].steps < least_count {
                least_count = self.threads[i].steps;
            }
            i = i + 1;
        }
        assert(counts(self.threads@).take(i as int) =~= counts(self.threads@));
        least_count
    }

    /// Rebases every thread on the one that is least far: the least count
    /// is taken off all counts, and nothing else changes. Afterwards the
    /// least count is zero, and the distance between any two threads is
    /// what it was.
    pub fn synchronize(&mut self)
        ensures
            final(self).threads@.len() == old(self).threads@.len(),
            forall|k: int|
                #![trigger final(self).threads@[k]]
                0 <= k < old(self).threads@.len() ==> *final(self).threads@[k] == rebased(
                    *old(self).threads@[k],
                    least(counts(old(self).threads@)),
                ),
            least(counts(final(self).threads@)) == 0,
            forall|i: int, j: int|
                #![trigger final(self).threads@[i], final(self).threads@[j]]
                0 <= i < old(self).threads@.len() && 0 <= j < old(self).threads@.len() ==> final(self).threads@[i].steps - final(self).threads@[j].steps == old(self).threads@[i].steps
                    - old(self).threads@[j].steps,
    {
        let minimum_val = self.minimum();
        proof {
            if self.threads@.len() > 0 {
                lemma_least(counts(self.threads@));
                assert forall|k: int|
                    #![trigger old(self).threads@[k]]
                    0 <= k < old(self).threads@.len() implies minimum_val <= old(self).threads@[k].steps by {
                    assert(counts(old(self).threads@)[k] == old(self).threads@[k].steps);
                }
            }
        }
        let mut i: usize = 0;
        while i < self.threads.len()
            invariant
                i <= self.threads.len(),
                self.threads@.len() == old(self).threads@.len(),
                minimum_val == least(counts(old(self).threads@)),
                forall|k: int|
                    #![trigger old(self).threads@[k]]
                    0 <= k < old(self).threads@.len() ==> minimum_val <= old(self).threads@[k].steps,
                forall|k: int|
                    #![trigger self.threads@[k]]
                    0 <= k < i ==> *self.threads@[k] == rebased(
                        *old(self).threads@[k],
                        minimum_val,
                    ),
                forall|k: int|
                    #![trigger self.threads@[k]]
                    i <= k < self.threads@.len() ==> *self.threads@[k] == *old(self).threads@[k],
            decreases self.threads.len() - i,
        {
            let steps = self.threads[i].steps;
            self.threads[i].steps = steps - minimum_val;
            i = i + 1;
        }
        proof {
            let before = counts(old(self).threads@);
            let after = counts(self.threads@);
            if before.len() > 0 {
                assert forall|k: int| 0 <= k < before.len() implies #[trigger] after[k]
                    == before[k] - least(before) by {
                    assert(*self.threads@[k] == rebased(*old(self).threads@[k], minimum_val));
                }
                lemma_rebase_keeps_distances(before, after);
                assert forall|i: int, j: int|
                    #![trigger self.threads@[i], self.threads@[j]]
                    0 <= i < before.len() && 0 <= j < before.len() implies self.threads@[i].steps
                    - self.threads@[j].steps == old(self).threads@[i].steps - old(self).threads@[j].steps by {
                    assert(after[i] - after[j] == before[i] - before[j]);
                }
            } else {
                assert(after.len() == 0);
            }
        }
    }
}

impl<'a> Default for Scheduler<'a> {
    fn default() -> (scheduler: Self)
        ensures
            scheduler.threads@.len() == 0,
    {
        Scheduler::new()
    }
}

} // verus!
