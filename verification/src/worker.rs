//! The background worker's side of the bargain: a FIFO queue of jobs shared
//! by all connections, and the decision the worker makes for each job it
//! receives.
//!
//! The worker's blocking parts — waiting on the channel and the simulated
//! latency — belong to the caller that hosts the worker thread. What is here
//! is everything the worker decides: which job comes next (always the oldest)
//! and what it produces for it (the fixed answer and the job's resume token).

use vstd::prelude::*;

use crate::conn::Job;
use crate::route::answer_body;
use crate::route::answer_body_vec;

verus! {

/// The queue all connections submit jobs to, consumed by the single worker.
/// Ordering is first-in, first-out.
pub struct WorkerQueue {
    pub jobs: Vec<Job>,
}

impl WorkerQueue {
    /// An empty queue.
    pub fn new() -> (q: WorkerQueue)
        ensures
            q.jobs@ =~= Seq::<Job>::empty(),
    {
        WorkerQueue { jobs: Vec::new() }
    }

    /// Submit a job at the back.
    pub fn push(&mut self, j: Job)
        ensures
            final(self).jobs@ =~= old(self).jobs@.push(j),
    {
        self.jobs.push(j);
    }

    /// Take the oldest job: exactly the front, so submission order is
    /// completion order.
    pub fn pop(&mut self) -> (j: Job)
        requires
            old(self).jobs@.len() > 0,
        ensures
            j == old(self).jobs@[0],
            final(self).jobs@ =~= old(self).jobs@.drop_first(),
    {
        self.jobs.remove(0)
    }

    /// How many jobs are waiting.
    pub fn len(&self) -> (n: usize)
        ensures
            n == self.jobs@.len(),
    {
        self.jobs.len()
    }

    /// Whether no job is waiting.
    pub fn is_empty(&self) -> (b: bool)
        ensures
            b == (self.jobs@.len() == 0),
    {
        self.jobs.len() == 0
    }
}

/// What the worker produces for a job: the fixed answer payload and the
/// job's own resume token, whatever the job. Defined for every job — also
/// one whose connection has since been torn down.
pub open spec fn worker_out(j: Job) -> (Seq<u8>, usize) {
    (answer_body(), j.resume)
}

/// The worker's decision for one received job. It has no precondition: no
/// job — not even one for an aborted connection — can make it fail. The
/// caller writes the payload into the job's reply channel (a failed delivery
/// is discarded there) and then signals the returned resume token.
pub fn worker_step(j: Job) -> (r: (Vec<u8>, usize))
    ensures
        r.0@ == worker_out(j).0,
        r.1 == worker_out(j).1,
{
    (answer_body_vec(), j.resume)
}

/// The order in which jobs finish when each step takes the front job and
/// completes it before the next is begun.
pub open spec fn completion_order(jobs: Seq<Job>) -> Seq<Job>
    decreases jobs.len(),
{
    if jobs.len() == 0 {
        Seq::empty()
    } else {
        seq![jobs[0]] + completion_order(jobs.drop_first())
    }
}

/// FIFO law: with a single worker taking one job at a time from the front,
/// jobs complete in exactly the order they were submitted.
pub proof fn lemma_fifo(jobs: Seq<Job>)
    ensures
        completion_order(jobs) =~= jobs,
    decreases jobs.len(),
{
    if jobs.len() > 0 {
        lemma_fifo(jobs.drop_first());
    }
}

} // verus!
