//! A bounded first-in, first-out job queue held in memory.
use vstd::prelude::*;
use std::collections::VecDeque;
use crate::clock::now_nanos;
use crate::job::traits::QueueError;
use crate::job::types::{Job, JobId, JobStatus};
use crate::text::decimal;

verus! {

broadcast use vstd::seq_lib::group_seq_properties;

/// The jobs waiting to run, oldest first, never more than the capacity it
/// was made with. `app/` shares it between tasks behind a lock.
pub struct InMemoryQueue {
    jobs: VecDeque<Job>,
    max_size: usize,
}

/// A job is offered to the retry loop when a retry is scheduled for it and
/// the time of that retry has come.
pub open spec fn retry_due(j: Job, now: u128) -> bool {
    j.status == JobStatus::RetryScheduled && (j.metadata.next_retry_at matches Some(t) && now >= t)
}

/// The jobs of `s` whose scheduled retry is due at `now`, in order.
pub open spec fn due_jobs(s: Seq<Job>, now: u128) -> Seq<Job> {
    s.filter(|j: Job| retry_due(j, now))
}

/// The jobs of `s` whose id is not `id`, in order.
pub open spec fn without_id(s: Seq<Job>, id: JobId) -> Seq<Job> {
    s.filter(|j: Job| j.id != id)
}

/// The job with its status set and its update time moved to `now`.
pub open spec fn with_status(j: Job, status: JobStatus, now: u128) -> Job {
    Job { status: status, updated_at: now, ..j }
}

/// The jobs held after `job` is appended to `s`, numbered one more than the
/// number of jobs held before.
pub open spec fn pushed(s: Seq<Job>, job: Job) -> Seq<Job> {
    s.push(Job { id: JobId((s.len() + 1) as u64), ..job })
}

/// The error for a job id that the queue does not hold.
pub open spec fn not_found_message(id: JobId) -> Seq<char> {
    "#"@ + decimal(id.0 as nat)
}

impl InMemoryQueue {
    /// Never more jobs than the capacity.
    #[verifier::type_invariant]
    closed spec fn within_capacity(&self) -> bool {
        self.jobs@.len() <= self.max_size
    }

    /// The jobs held, oldest first.
    pub closed spec fn view(&self) -> Seq<Job> {
        self.jobs@
    }

    /// The most jobs the queue holds at once.
    pub closed spec fn capacity(&self) -> nat {
        self.max_size as nat
    }

    /// An empty queue that holds at most `max_size` jobs.
    pub fn new(max_size: usize) -> (q: Self)
        ensures
            q@ == Seq::<Job>::empty(),
            q.capacity() == max_size,
    {
        InMemoryQueue { jobs: VecDeque::with_capacity(max_size), max_size }
    }

    /// The number of jobs held.
    pub fn len(&self) -> (n: usize)
        ensures
            n == self@.len(),
            n <= self.capacity(),
    {
        proof {
            use_type_invariant(self);
        }
        self.jobs.len()
    }

    /// Appends a job, numbering it one more than the number of jobs held
    /// before; refuses it when the queue is full.
    pub fn push(&mut self, job: Job) -> (r: Result<(), QueueError>)
        ensures
            final(self).capacity() == old(self).capacity(),
            final(self)@.len() <= final(self).capacity(),
            old(self)@.len() >= old(self).capacity() ==> (r matches Err(QueueError::Full) && final(self)@ == old(self)@),
            old(self)@.len() < old(self).capacity() ==> r is Ok && final(self)@ == pushed(old(self)@, job),
    {
        proof {
            use_type_invariant(&*self);
        }
        if self.jobs.len() >= self.max_size {
            return Err(QueueError::Full);
        }
        let mut job = job;
        let n = self.jobs.len() as u64;
        job.id = JobId(n + 1);
        let mut jobs: VecDeque<Job> = VecDeque::new();
        std::mem::swap(&mut jobs, &mut self.jobs);
        jobs.push_back(job);
        self.jobs = jobs;
        Ok(())
    }

    /// Takes the oldest job, if any.
    pub fn pop(&mut self) -> (r: Option<Job>)
        ensures
            final(self).capacity() == old(self).capacity(),
            final(self)@.len() <= final(self).capacity(),
            match r {
                Some(j) => old(self)@.len() > 0 && j == old(self)@[0] && final(self)@ == old(self)@.drop_first(),
                None => old(self)@.len() == 0 && final(self)@ == old(self)@,
            },
    {
        proof {
            use_type_invariant(&*self);
        }
        let mut jobs: VecDeque<Job> = VecDeque::new();
        std::mem::swap(&mut jobs, &mut self.jobs);
        let r = jobs.pop_front();
        self.jobs = jobs;
        proof {
            if r is Some {
                assert(old(self)@.subrange(1, old(self)@.len() as int) =~= old(self)@.drop_first());
            }
        }
        r
    }

    /// Drops every job with the given id; fails when there is none.
    pub fn remove(&mut self, job_id: JobId) -> (r: Result<(), QueueError>)
        ensures
            final(self).capacity() == old(self).capacity(),
            final(self)@.len() <= final(self).capacity(),
            final(self)@ == without_id(old(self)@, job_id),
            (exists|i: int| 0 <= i < old(self)@.len() && (#[trigger] old(self)@[i]).id == job_id)
                ==> r is Ok,
            !(exists|i: int| 0 <= i < old(self)@.len() && (#[trigger] old(self)@[i]).id == job_id)
                ==> (r matches Err(QueueError::NotFound(m)) && m@ == not_found_message(job_id)),
    {
        proof {
            use_type_invariant(&*self);
        }
        let ghost start = self.jobs@;
        let ghost pred = |j: Job| j.id != job_id;
        let mut rest: VecDeque<Job> = VecDeque::new();
        std::mem::swap(&mut self.jobs, &mut rest);
        let mut kept: VecDeque<Job> = VecDeque::new();
        let mut dropped: bool = false;
        let total = rest.len();
        let mut i: usize = 0;
        while i < total
            invariant
                total == start.len(),
                i <= total,
                rest@ == start.subrange(i as int, total as int),
                pred == (|j: Job| j.id != job_id),
                kept@ == start.subrange(0, i as int).filter(pred),
                dropped == exists|k: int| 0 <= k < i && (#[trigger] start[k]).id == job_id,
            decreases total - i,
        {
            let j = rest.pop_front().unwrap();
            proof {
                assert(start.subrange(0, i + 1) =~= start.subrange(0, i as int).push(j));
                assert(rest@ =~= start.subrange(i + 1, total as int));
            }
            proof {
                start.subrange(0, i as int).lemma_filter_push(j, pred);
            }
            if j.id == job_id {
                dropped = true;
            } else {
                kept.push_back(j);
            }
            i = i + 1;
        }
        proof {
            assert(start.subrange(0, total as int) =~= start);
            start.lemma_filter_len(pred);
        }
        self.jobs = kept;
        if !dropped {
            return Err(QueueError::NotFound(job_id.display()));
        }
        Ok(())
    }

    /// Sets the status of the first job with the given id and stamps it as
    /// updated at `now`; fails when there is none.
    pub fn update_status_at(&mut self, job_id: JobId, status: JobStatus, now: u128) -> (r: Result<
        (),
        QueueError,
    >)
        ensures
            final(self).capacity() == old(self).capacity(),
            final(self)@.len() <= final(self).capacity(),
            (exists|i: int| 0 <= i < old(self)@.len() && (#[trigger] old(self)@[i]).id == job_id)
                <==> r is Ok,
            r is Ok ==> exists|i: int|
                0 <= i < old(self)@.len() && (#[trigger] old(self)@[i]).id == job_id && (forall|k: int|
                    0 <= k < i ==> (#[trigger] old(self)@[k]).id != job_id) && final(self)@ == old(self)@.update(i, with_status(old(self)@[i], status, now)),
            r is Err ==> final(self)@ == old(self)@ && (r matches Err(QueueError::NotFound(m))
                && m@ == not_found_message(job_id)),
    {
        proof {
            use_type_invariant(&*self);
        }
        let n = self.jobs.len();
        let mut i: usize = 0;
        while i < n
            invariant
                n == self.jobs@.len(),
                self.jobs@ == old(self).jobs@,
                self.max_size == old(self).max_size,
                old(self).jobs@.len() <= old(self).max_size,
                i <= n,
                forall|k: int| 0 <= k < i ==> (#[trigger] self.jobs@[k]).id != job_id,
            decreases n - i,
        {
            if self.jobs[i].id == job_id {
                let ghost before = self.jobs@;
                let mut jobs: VecDeque<Job> = VecDeque::new();
                std::mem::swap(&mut jobs, &mut self.jobs);
                let mut j = jobs.remove(i).unwrap();
                j.status = status;
                j.updated_at = now;
                jobs.insert(i, j);
                proof {
                    assert(jobs@ =~= before.update(i as int, with_status(before[i as int], status, now)));
                }
                self.jobs = jobs;
                return Ok(());
            }
            i = i + 1;
        }
        Err(QueueError::NotFound(job_id.display()))
    }

    /// Sets the status of the first job with the given id and stamps it as
    /// updated at the present moment; fails when there is none.
    pub fn update_status(&mut self, job_id: JobId, status: JobStatus) -> (r: Result<(), QueueError>)
        ensures
            final(self).capacity() == old(self).capacity(),
            final(self)@.len() == old(self)@.len(),
            (exists|i: int| 0 <= i < old(self)@.len() && (#[trigger] old(self)@[i]).id == job_id)
                <==> r is Ok,
            r is Ok ==> exists|i: int, now: u128|
                #![trigger with_status(old(self)@[i], status, now)]
                0 <= i < old(self)@.len() && old(self)@[i].id == job_id && (forall|k: int|
                    0 <= k < i ==> (#[trigger] old(self)@[k]).id != job_id) && final(self)@ == old(self)@.update(i, with_status(old(self)@[i], status, now)),
            r is Err ==> final(self)@ == old(self)@,
    {
        let now = now_nanos();
        self.update_status_at(job_id, status, now)
    }

    /// Copies of the jobs whose scheduled retry is due at `now`, oldest first.
    pub fn peek_retryable_at(&self, now: u128) -> (r: Vec<Job>)
        ensures
            r@.len() == due_jobs(self@, now).len(),
            forall|i: int| 0 <= i < r@.len() ==> (#[trigger] r@[i]).same_as(due_jobs(self@, now)[i]),
    {
        let ghost pred = |j: Job| retry_due(j, now);
        let mut out: Vec<Job> = Vec::new();
        let ghost chosen: Seq<Job> = Seq::empty();
        let n = self.jobs.len();
        let mut i: usize = 0;
        while i < n
            invariant
                n == self.jobs@.len(),
                i <= n,
                pred == (|j: Job| retry_due(j, now)),
                chosen == self.jobs@.subrange(0, i as int).filter(pred),
                out@.len() == chosen.len(),
                forall|k: int| 0 <= k < out@.len() ==> (#[trigger] out@[k]).same_as(chosen[k]),
            decreases n - i,
        {
            let j = &self.jobs[i];
            proof {
                assert(self.jobs@.subrange(0, i + 1) =~= self.jobs@.subrange(0, i as int).push(*j));
                self.jobs@.subrange(0, i as int).lemma_filter_push(*j, pred);
            }
            if j.status == JobStatus::RetryScheduled && j.metadata.is_ready_for_retry_at(now) {
                out.push(j.duplicate());
                proof {
                    chosen = chosen.push(*j);
                }
            }
            i = i + 1;
        }
        proof {
            assert(self.jobs@.subrange(0, n as int) =~= self.jobs@);
        }
        out
    }

    /// Copies of the jobs whose scheduled retry is due now, oldest first.
    pub fn peek_retryable(&self) -> (r: Vec<Job>)
        ensures
            exists|now: u128|
                r@.len() == (#[trigger] due_jobs(self@, now)).len() && forall|i: int|
                    0 <= i < r@.len() ==> (#[trigger] r@[i]).same_as(due_jobs(self@, now)[i]),
    {
        let now = now_nanos();
        self.peek_retryable_at(now)
    }
}

} // verus!

verus! {

/// Jobs leave the queue in the order they entered it: after `a` and then
/// `b` are appended to the held jobs `s`, the jobs of `s` come first,
/// unchanged, and once they have been taken from the front, `a` and then
/// `b` remain, each numbered by its place when it was appended.
pub proof fn law_first_in_first_out(s: Seq<Job>, a: Job, b: Job)
    ensures
        pushed(pushed(s, a), b).subrange(0, s.len() as int) == s,
        pushed(pushed(s, a), b).skip(s.len() as int) == seq![
            Job { id: JobId((s.len() + 1) as u64), ..a },
            Job { id: JobId((s.len() + 2) as u64), ..b },
        ],
{
    let q = pushed(pushed(s, a), b);
    assert(q.subrange(0, s.len() as int) =~= s);
    assert(q.skip(s.len() as int) =~= seq![
        Job { id: JobId((s.len() + 1) as u64), ..a },
        Job { id: JobId((s.len() + 2) as u64), ..b },
    ]);
}

/// After a job id is removed, no held job carries it, and every other job
/// stays, in order.
pub proof fn law_removed_id_absent(s: Seq<Job>, id: JobId)
    ensures
        forall|i: int| 0 <= i < without_id(s, id).len() ==> (#[trigger] without_id(s, id)[i]).id != id,
        without_id(s, id).len() <= s.len(),
        (forall|i: int| 0 <= i < s.len() ==> (#[trigger] s[i]).id != id) ==> without_id(s, id) == s,
    decreases s.len(),
{
    let pred = |j: Job| j.id != id;
    s.lemma_filter_len(pred);
    assert forall|i: int| 0 <= i < s.filter(pred).len() implies (#[trigger] s.filter(pred)[i]).id != id by {
        s.lemma_filter_pred(pred, i);
    }
    if forall|i: int| 0 <= i < s.len() ==> (#[trigger] s[i]).id != id {
        if s.len() > 0 {
            law_removed_id_absent(s.drop_last(), id);
            assert(s.drop_last().push(s.last()) =~= s);
            s.drop_last().lemma_filter_push(s.last(), pred);
            assert forall|i: int| 0 <= i < s.drop_last().len() implies (#[trigger] s.drop_last()[i]).id != id by {
                assert(s.drop_last()[i] == s[i]);
            }
        } else {
            reveal(Seq::filter);
        }
    }
}

} // verus!
