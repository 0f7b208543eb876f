//! Admission-capped batch scheduling.
//!
//! One batch runs a fixed number of independent measurement tasks under a
//! concurrency cap.  The asynchronous loop that actually awaits the network
//! drives this state machine: it may start a task only when [`BatchScheduler::launch`]'s
//! precondition holds, and it records each finished task with
//! [`BatchScheduler::complete`].  The machine's well-formedness invariant is
//! the admission-cap guarantee: the number of in-flight tasks never exceeds
//! the concurrency limit.

use vstd::prelude::*;

use crate::sample::BatchOutcome;
use crate::sample::TaskResult;

verus! {

/// The scheduling state of one batch: how many tasks were admitted so far,
/// how many are currently in their awaiting-response phase, and the results
/// of the tasks that completed, in completion order.
pub struct BatchScheduler {
    pub sample_count: usize,
    pub concurrency_limit: usize,
    pub admitted: usize,
    pub in_flight: usize,
    pub completed: Vec<TaskResult>,
}

impl BatchScheduler {
    /// Well-formedness: the admission cap holds, no more tasks were admitted
    /// than the batch asks for, and every admitted task is either still in
    /// flight or accounted for by a recorded result.
    pub open spec fn wf(self) -> bool {
        &&& 1 <= self.concurrency_limit
        &&& self.in_flight <= self.concurrency_limit
        &&& self.admitted <= self.sample_count
        &&& self.admitted == self.in_flight + self.completed@.len()
    }

    /// A fresh scheduler for a batch of `sample_count` tasks under the given
    /// concurrency cap.
    pub fn new(sample_count: usize, concurrency_limit: usize) -> (s: Self)
        requires
            1 <= concurrency_limit,
        ensures
            s.wf(),
            s.sample_count == sample_count,
            s.concurrency_limit == concurrency_limit,
            s.admitted == 0,
            s.in_flight == 0,
            s.completed@ == Seq::<TaskResult>::empty(),
    {
        let s = BatchScheduler {
            sample_count,
            concurrency_limit,
            admitted: 0,
            in_flight: 0,
            completed: Vec::new(),
        };
        proof {
            assert(s.completed@ =~= Seq::<TaskResult>::empty());
        }
        s
    }

    /// Whether a further task may be started right now: a task is left to
    /// run and a free execution slot exists under the cap.
    pub fn can_admit(&self) -> (r: bool)
        ensures
            r == (self.admitted < self.sample_count && self.in_flight < self.concurrency_limit),
    {
        self.admitted < self.sample_count && self.in_flight < self.concurrency_limit
    }

    /// Admits one task into its awaiting-response phase.  The precondition
    /// is the admission policy: no task starts without a free slot.
    pub fn launch(&mut self)
        requires
            old(self).wf(),
            old(self).admitted < old(self).sample_count,
            old(self).in_flight < old(self).concurrency_limit,
        ensures
            final(self).wf(),
            final(self).sample_count == old(self).sample_count,
            final(self).concurrency_limit == old(self).concurrency_limit,
            final(self).admitted == old(self).admitted + 1,
            final(self).in_flight == old(self).in_flight + 1,
            final(self).completed@ == old(self).completed@,
    {
        self.admitted = self.admitted + 1;
        self.in_flight = self.in_flight + 1;
    }

    /// Records the result of one task that just completed, freeing its slot.
    pub fn complete(&mut self, result: TaskResult)
        requires
            old(self).wf(),
            0 < old(self).in_flight,
        ensures
            final(self).wf(),
            final(self).sample_count == old(self).sample_count,
            final(self).concurrency_limit == old(self).concurrency_limit,
            final(self).admitted == old(self).admitted,
            final(self).in_flight == old(self).in_flight - 1,
            final(self).completed@ == old(self).completed@.push(result),
    {
        self.in_flight = self.in_flight - 1;
        self.completed.push(result);
    }

    /// Whether the batch is done: every task was admitted and none is still
    /// in flight.
    pub fn is_finished(&self) -> (r: bool)
        ensures
            r == (self.admitted == self.sample_count && self.in_flight == 0),
    {
        self.admitted == self.sample_count && self.in_flight == 0
    }

    /// Law: at every instant, the number of tasks in their awaiting-response
    /// phase stays within the concurrency limit.
    pub proof fn lemma_admission_cap(self)
        requires
            self.wf(),
        ensures
            self.in_flight <= self.concurrency_limit,
    {
    }

    /// Law: a finished batch holds exactly `sample_count` task results,
    /// however many individual exchanges failed.
    pub proof fn lemma_finished_preserves_cardinality(self)
        requires
            self.wf(),
            self.admitted == self.sample_count,
            self.in_flight == 0,
        ensures
            self.completed@.len() == self.sample_count,
    {
    }

    /// Turns a finished batch into its outcome, stamped with the batch's
    /// total wall-clock time.
    pub fn into_outcome(self, total_ms: u64) -> (o: BatchOutcome)
        requires
            self.wf(),
            self.admitted == self.sample_count,
            self.in_flight == 0,
        ensures
            o.results@ == self.completed@,
            o.results@.len() == self.sample_count,
            o.total_ms == total_ms,
    {
        BatchOutcome { results: self.completed, total_ms }
    }
}

/// Runs a whole batch against a deterministic scripted transport: the task
/// results are handed in up front, in the order the tasks will complete.
/// The scheduler machine is driven exactly as the asynchronous loop drives
/// it — fill the free slots, then retire the longest-running task — so the
/// outcome preserves one result per scripted task.
pub fn run_batch_scripted(script: &Vec<TaskResult>, concurrency_limit: usize, total_ms: u64) -> (o:
    BatchOutcome)
    requires
        1 <= concurrency_limit,
    ensures
        o.results@ == script@,
        o.total_ms == total_ms,
{
    let mut scheduler = BatchScheduler::new(script.len(), concurrency_limit);
    let mut next: usize = 0;
    while !(scheduler.admitted == scheduler.sample_count && scheduler.in_flight == 0)
        invariant
            scheduler.wf(),
            scheduler.sample_count == script.len(),
            scheduler.concurrency_limit == concurrency_limit,
            next == scheduler.completed@.len(),
            scheduler.completed@ == script@.take(next as int),
        decreases
            2 * (scheduler.sample_count - scheduler.completed@.len()) - scheduler.in_flight,
    {
        if scheduler.can_admit() {
            scheduler.launch();
        } else {
            let result = script[next];
            scheduler.complete(result);
            proof {
                assert(script@.take(next + 1int) =~= script@.take(next as int).push(
                    script@[next as int],
                ));
            }
            next = next + 1;
        }
    }
    proof {
        assert(script@.take(script@.len() as int) =~= script@);
    }
    scheduler.into_outcome(total_ms)
}

} // verus!
