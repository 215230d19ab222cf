use vstd::prelude::*;
use crate::job::Job;
use crate::result;
use crate::result::Result;
use crate::task::Task;

verus! {

/// The target queue depth after one refill that found `queue_len` tasks
/// waiting: an empty queue grows the depth by a tenth, rounded down.
pub open spec fn next_depth(depth: nat, queue_len: nat) -> nat {
    if queue_len == 0 {
        depth + depth / 10
    } else {
        depth
    }
}

/// The target depth after refills that found the queue lengths in
/// `observed`, in order, starting from `start`.
pub open spec fn depth_after(start: nat, observed: Seq<nat>) -> nat
    decreases observed.len(),
{
    if observed.len() == 0 {
        start
    } else {
        next_depth(depth_after(start, observed.drop_last()), observed.last())
    }
}

/// Over any run the target depth never falls: a later refill never sees a
/// smaller target than an earlier one.
pub proof fn lemma_depth_monotone(start: nat, observed: Seq<nat>, i: int, j: int)
    requires
        0 <= i <= j <= observed.len(),
    ensures
        depth_after(start, observed.take(i)) <= depth_after(start, observed.take(j)),
    decreases j - i,
{
    if i < j {
        lemma_depth_monotone(start, observed, i, j - 1);
        assert(observed.take(j).drop_last() =~= observed.take(j - 1));
    }
}

/// Each refill that finds the queue empty grows the target by exactly a
/// tenth of it, rounded down; any other refill keeps it.
pub proof fn lemma_depth_step(start: nat, observed: Seq<nat>, q: nat)
    ensures
        depth_after(start, observed.push(q)) == if q == 0 {
            depth_after(start, observed) + depth_after(start, observed) / 10
        } else {
            depth_after(start, observed)
        },
{
    assert(observed.push(q).drop_last() =~= observed);
}

/// The decisions of a run: the job, the current target queue depth and the
/// statistics gathered so far. Whoever drives the workers asks it how many
/// tasks to enqueue, whether the deadline has passed, and hands it every
/// outcome.
pub struct Broker {
    pub job: Job,
    /// Current target queue depth.
    pub ratio: usize,
    pub result: Result,
}

/// A broker for `job`, before its run starts.
pub fn new(job: Job) -> (b: Broker)
    ensures
        b.job == job,
        b.ratio == 0,
        b.result.wf(),
        b.result.total_spec() == 0,
        b.result.url.is_none(),
        b.result.status_code_summary@.is_empty(),
        b.result.duration_summary@.is_empty(),
{
    Broker { job, ratio: 0, result: result::new() }
}

impl Broker {
    /// Sets the target depth for the start of a run.
    pub fn start(&mut self)
        requires
            old(self).job.concurrency * old(self).job.ratio <= usize::MAX,
        ensures
            final(self).ratio == final(self).job.concurrency * final(self).job.ratio,
            final(self).job == old(self).job,
            final(self).result == old(self).result,
    {
        self.ratio = self.job.concurrency * self.job.ratio;
    }

    /// One refill, having found `queue_len` tasks waiting: grows the target
    /// depth where the queue is empty, and returns how many tasks to add.
    pub fn refill_count(&mut self, queue_len: usize) -> (n: usize)
        requires
            queue_len == 0 ==> old(self).ratio + old(self).ratio / 10 <= usize::MAX,
        ensures
            final(self).ratio == next_depth(old(self).ratio as nat, queue_len as nat),
            final(self).ratio >= old(self).ratio,
            n == if queue_len < final(self).ratio {
                final(self).ratio - queue_len
            } else {
                0
            },
            final(self).job == old(self).job,
            final(self).result == old(self).result,
    {
        if queue_len == 0 {
            self.ratio = self.ratio + self.ratio / 10;
        }
        if queue_len < self.ratio {
            self.ratio - queue_len
        } else {
            0
        }
    }

    /// Whether the run's time is over, `elapsed_ms` milliseconds after it
    /// started.
    pub fn is_time_up(&self, elapsed_ms: u64) -> (r: bool)
        ensures
            r == (elapsed_ms as int >= self.job.duration as int * 1000),
    {
        elapsed_ms / 1000 >= self.job.duration as u64
    }

    /// The task that every slot of the queue receives.
    pub fn schedule_task(&self) -> (t: Task)
        ensures
            t.url@ == self.job.url@,
            t.time_out == self.job.time_out,
    {
        Task { url: self.job.url.clone(), time_out: self.job.time_out }
    }

    /// Records the end of the run, `elapsed_ms` milliseconds after it
    /// started.
    pub fn finish(&mut self, elapsed_ms: u64)
        requires
            old(self).result.wf(),
        ensures
            final(self).result.wf(),
            final(self).result.duration == elapsed_ms,
            final(self).result.ratio == old(self).ratio,
            final(self).result.concurrency_level == old(self).job.concurrency,
            final(self).result.success == old(self).result.success,
            final(self).result.failed == old(self).result.failed,
            final(self).result.timed_out == old(self).result.timed_out,
            final(self).result.url == old(self).result.url,
            final(self).result.status_code_summary@ == old(self).result.status_code_summary@,
            final(self).result.duration_summary@ == old(self).result.duration_summary@,
            final(self).job == old(self).job,
            final(self).ratio == old(self).ratio,
    {
        self.result.duration = elapsed_ms;
        self.result.ratio = self.ratio;
        self.result.concurrency_level = self.job.concurrency;
    }

    /// The statistics of the run.
    pub fn get_result(&self) -> (r: &Result)
        ensures
            r == &self.result,
    {
        &self.result
    }
}

} // verus!
