//! The scheduler's decisions: which retry limit a new job gets and when a
//! failed job is tried again. `app/` runs the loops that apply them.
use vstd::prelude::*;
use crate::clock::MAX_DURATION_NANOS;
use crate::job::queue::InMemoryQueue;
use crate::job::queue::in_memory::retry_due;
use crate::job::traits::{job_retryable, JobResult};
use crate::job::types::{Job, JobId, JobMetadata};
use crate::job::worker::status_after_spec;

verus! {

/// `base` doubled `n` times: the delay before the retry that follows the
/// `n + 1`-th attempt.
pub open spec fn backoff(base: nat, n: nat) -> nat
    decreases n,
{
    if n == 0 {
        base
    } else {
        2 * backoff(base, (n - 1) as nat)
    }
}

/// Doubling more often never gives a shorter delay.
pub proof fn lemma_backoff_monotone(base: nat, m: nat, n: nat)
    requires
        m <= n,
    ensures
        backoff(base, m) <= backoff(base, n),
    decreases n,
{
    if m < n {
        lemma_backoff_monotone(base, m, (n - 1) as nat);
    }
}

/// The delay before the next retry of a job that has now been attempted
/// `attempt_count` times: `base` times two to the power `attempt_count - 1`.
/// The exponent must fit the 32-bit power that computes it, and the delay
/// a `Duration`.
pub fn retry_delay(base: u128, attempt_count: u32) -> (d: u128)
    requires
        1 <= attempt_count <= 32,
        backoff(base as nat, (attempt_count - 1) as nat) <= MAX_DURATION_NANOS,
    ensures
        d == backoff(base as nat, (attempt_count - 1) as nat),
{
    let mut d: u128 = base;
    let mut k: u32 = 1;
    while k < attempt_count
        invariant
            1 <= k <= attempt_count,
            attempt_count <= 32,
            d == backoff(base as nat, (k - 1) as nat),
            backoff(base as nat, (attempt_count - 1) as nat) <= MAX_DURATION_NANOS,
        decreases attempt_count - k,
    {
        proof {
            lemma_backoff_monotone(base as nat, k as nat, (attempt_count - 1) as nat);
        }
        d = d * 2;
        k = k + 1;
    }
    d
}

/// The job with the given retry limit.
pub open spec fn limited(job: Job, max_retries: u32) -> Job {
    Job { metadata: JobMetadata { max_retries: max_retries, ..job.metadata }, ..job }
}

/// The job as the queue holds it after appending it at position `pos`.
pub open spec fn queued_at(job: Job, max_retries: u32, pos: int) -> Job {
    Job { id: JobId((pos + 1) as u64), ..limited(job, max_retries) }
}

/// Gives a job that a handler produced the scheduler's retry limit.
pub fn with_retry_limit(job: Job, max_retries: u32) -> (j: Job)
    ensures
        j == limited(job, max_retries),
{
    let mut job = job;
    job.metadata.max_retries = max_retries;
    job
}

/// Counts one more attempt on a job picked for retry and schedules its next
/// retry after the doubled delay, counted from `now`.
pub fn schedule_next_retry(job: &mut Job, base: u128, now: u128)
    requires
        old(job).metadata.attempt_count < 32,
        backoff(base as nat, old(job).metadata.attempt_count as nat) <= MAX_DURATION_NANOS,
        now <= MAX_DURATION_NANOS,
    ensures
        final(job).metadata.attempt_count == old(job).metadata.attempt_count + 1,
        final(job).metadata.last_error is None,
        final(job).metadata.max_retries == old(job).metadata.max_retries,
        final(job).metadata.next_retry_at == Some(
            (now + backoff(base as nat, old(job).metadata.attempt_count as nat)) as u128,
        ),
        final(job).id == old(job).id,
        final(job).job_type == old(job).job_type,
        final(job).status == old(job).status,
        final(job).created_at == old(job).created_at,
        final(job).updated_at == old(job).updated_at,
        final(job).payload == old(job).payload,
        *final(job) == rescheduled(*old(job), base as nat, now as nat),
{
    job.metadata.record_attempt(None);
    let delay = retry_delay(base, job.metadata.attempt_count);
    job.metadata.schedule_retry_at(now, delay);
}

/// Gives each job the scheduler's retry limit and appends it to the queue,
/// in order, while there is room; returns how many the full queue refused.
pub fn enqueue_jobs(queue: &mut InMemoryQueue, jobs: Vec<Job>, max_retries: u32) -> (refused: usize)
    ensures
        final(queue).capacity() == old(queue).capacity(),
        ({
            let room = old(queue).capacity() - old(queue)@.len();
            let accepted = if jobs@.len() <= room { jobs@.len() as int } else { room };
            &&& final(queue)@.len() == old(queue)@.len() + accepted
            &&& refused == jobs@.len() - accepted
            &&& final(queue)@.subrange(0, old(queue)@.len() as int) == old(queue)@
            &&& forall|i: int|
                0 <= i < accepted ==> #[trigger] final(queue)@[old(queue)@.len() + i] == queued_at(
                    jobs@[i],
                    max_retries,
                    old(queue)@.len() + i,
                )
        }),
{
    let ghost start = queue@;
    let ghost all = jobs@;
    let _held = queue.len();
    proof {
        assert(queue@.subrange(0, start.len() as int) =~= start);
    }
    let mut jobs = jobs;
    let mut refused: usize = 0;
    let mut taken: usize = 0;
    let total = jobs.len();
    while jobs.len() > 0
        invariant
            queue.capacity() == old(queue).capacity(),
            start == old(queue)@,
            start.len() <= queue.capacity(),
            total == all.len(),
            taken <= total,
            jobs@ == all.subrange(taken as int, total as int),
            ({
                let room = queue.capacity() - start.len();
                let accepted = if taken <= room { taken as int } else { room };
                &&& queue@.len() == start.len() + accepted
                &&& refused == taken - accepted
                &&& queue@.subrange(0, start.len() as int) == start
                &&& forall|i: int|
                    0 <= i < accepted ==> #[trigger] queue@[start.len() + i] == queued_at(
                        all[i],
                        max_retries,
                        start.len() + i,
                    )
            }),
        decreases jobs.len(),
    {
        let job = jobs.remove(0);
        proof {
            assert(job == all[taken as int]);
            assert(jobs@ =~= all.subrange(taken + 1, total as int));
        }
        let ghost before = queue@;
        match queue.push(with_retry_limit(job, max_retries)) {
            Ok(()) => {
                proof {
                    assert(queue@.subrange(0, start.len() as int) =~= before.subrange(0, start.len() as int));
                }
            },
            Err(_) => {
                refused = refused + 1;
            },
        }
        taken = taken + 1;
    }
    refused
}

/// The job as the retry loop leaves it after picking it at `now`: one more
/// attempt counted and the next retry scheduled after the doubled delay.
pub open spec fn rescheduled(job: Job, base: nat, now: nat) -> Job {
    Job {
        metadata: JobMetadata {
            attempt_count: (job.metadata.attempt_count + 1) as u32,
            last_error: None,
            next_retry_at: Some((now + backoff(base, job.metadata.attempt_count as nat)) as u128),
            ..job.metadata
        },
        ..job
    }
}

/// A failed job comes back exactly when its failure was worth retrying: the
/// worker marks it by its result, and once the retry loop has rescheduled it
/// at `now`, it is due at `later` if and only if the run failed in a
/// retryable way and `later` has reached the doubled delay after `now`. A job
/// that succeeded or failed for good is never offered again.
pub proof fn law_failed_job_comes_back(job: Job, result: JobResult, base: u128, now: u128, later: u128)
    requires
        now + backoff(base as nat, job.metadata.attempt_count as nat) <= u128::MAX,
        job.metadata.attempt_count < u32::MAX,
    ensures
        retry_due(
            rescheduled(Job { status: status_after_spec(result), ..job }, base as nat, now as nat),
            later,
        ) <==> (result matches Err(e) && job_retryable(e) && later >= now + backoff(
            base as nat,
            job.metadata.attempt_count as nat,
        )),
{
}

} // verus!
