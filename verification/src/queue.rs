//! The bounded process task queue.
//!
//! Jobs created by the state machine are enqueued here and drained by a
//! single consumer that runs them strictly one at a time, in submission
//! order. Enqueuing never blocks: when the queue is full the job is dropped
//! and the caller records a warning — the event handler is never held up by
//! queue pressure, which favors availability of the detach/attach path over
//! completeness of optional handler execution.

use vstd::prelude::*;
use crate::machine::Job;

verus! {

/// Maximum number of jobs the queue holds at once.
pub const QUEUE_CAPACITY: usize = 32;

/// A bounded FIFO of pending jobs. The view is the sequence of queued jobs,
/// front first.
pub struct TaskQueue {
    jobs: Vec<Job>,
}

impl View for TaskQueue {
    type V = Seq<Job>;

    closed spec fn view(&self) -> Seq<Job> {
        self.jobs@
    }
}

/// What one non-blocking submission does to the queued sequence: appends
/// when there is room, drops the job when there is none.
pub open spec fn spec_submit(q: Seq<Job>, job: Job) -> Seq<Job> {
    if q.len() < QUEUE_CAPACITY {
        q.push(job)
    } else {
        q
    }
}

/// The queued sequence after submitting each of `jobs` in order, with no
/// job completing in between.
pub open spec fn spec_submit_all(q: Seq<Job>, jobs: Seq<Job>) -> Seq<Job>
    decreases jobs.len(),
{
    if jobs.len() == 0 {
        q
    } else {
        spec_submit_all(spec_submit(q, jobs[0]), jobs.drop_first())
    }
}

impl TaskQueue {
    /// The queue never holds more than its capacity.
    pub open spec fn wf(&self) -> bool {
        self@.len() <= QUEUE_CAPACITY
    }

    /// An empty queue.
    pub fn new() -> (q: TaskQueue)
        ensures
            q@ == Seq::<Job>::empty(),
            q.wf(),
    {
        TaskQueue { jobs: Vec::new() }
    }

    /// Number of pending jobs.
    pub fn len(&self) -> (n: usize)
        ensures
            n == self@.len(),
    {
        self.jobs.len()
    }

    /// Non-blocking enqueue. Accepts and appends the job when there is room;
    /// reports `false` and leaves the queue unchanged when it is full, in
    /// which case the caller drops the job and logs a warning.
    pub fn try_enqueue(&mut self, job: Job) -> (accepted: bool)
        requires
            old(self).wf(),
        ensures
            final(self).wf(),
            accepted == (old(self)@.len() < QUEUE_CAPACITY),
            final(self)@ == spec_submit(old(self)@, job),
    {
        if self.jobs.len() < QUEUE_CAPACITY {
            self.jobs.push(job);
            true
        } else {
            false
        }
    }

    /// Takes the oldest pending job, if any. The consumer runs the result to
    /// completion before calling this again, so jobs never run concurrently
    /// and leave in submission order.
    pub fn dequeue(&mut self) -> (job: Option<Job>)
        requires
            old(self).wf(),
        ensures
            final(self).wf(),
            old(self)@.len() == 0 ==> job is None && final(self)@ == old(self)@,
            old(self)@.len() > 0 ==> job == Some(old(self)@[0]) && final(self)@ == old(
                self,
            )@.drop_first(),
    {
        if self.jobs.len() == 0 {
            None
        } else {
            let job = self.jobs.remove(0);
            assert(self.jobs@ =~= old(self).jobs@.drop_first());
            Some(job)
        }
    }
}

/// Backpressure law: submitting any burst of jobs, none completing in
/// between, keeps the first jobs up to the remaining room, in submission
/// order, and drops exactly the rest.
pub proof fn lemma_queue_backpressure(q: Seq<Job>, jobs: Seq<Job>)
    requires
        q.len() <= QUEUE_CAPACITY,
    ensures
        spec_submit_all(q, jobs) == q + jobs.take(
            if jobs.len() <= QUEUE_CAPACITY - q.len() {
                jobs.len() as int
            } else {
                QUEUE_CAPACITY - q.len()
            },
        ),
    decreases jobs.len(),
{
    if jobs.len() == 0 {
        assert(spec_submit_all(q, jobs) =~= q + jobs.take(0));
    } else if q.len() < QUEUE_CAPACITY {
        lemma_queue_backpressure(q.push(jobs[0]), jobs.drop_first());
        let room = QUEUE_CAPACITY - q.len();
        let taken = if jobs.len() <= room {
            jobs.len() as int
        } else {
            room
        };
        assert(q.push(jobs[0]) + jobs.drop_first().take(taken - 1) =~= q + jobs.take(taken));
    } else {
        lemma_queue_backpressure(q, jobs.drop_first());
        assert(q + jobs.drop_first().take(0) =~= q + jobs.take(0));
    }
}

/// Corollary for a queue that starts empty: an oversized burst keeps
/// exactly the first `QUEUE_CAPACITY` jobs, in order; the rest are dropped.
pub proof fn lemma_queue_burst_from_empty(jobs: Seq<Job>)
    requires
        jobs.len() >= QUEUE_CAPACITY,
    ensures
        spec_submit_all(Seq::<Job>::empty(), jobs) == jobs.take(QUEUE_CAPACITY as int),
{
    lemma_queue_backpressure(Seq::<Job>::empty(), jobs);
    assert(Seq::<Job>::empty() + jobs.take(QUEUE_CAPACITY as int) =~= jobs.take(
        QUEUE_CAPACITY as int,
    ));
}

} // verus!
