//! Background jobs: their identity, kind, status, retry bookkeeping and payload.
use vstd::prelude::*;
use crate::clock::{now_nanos, MAX_DURATION_NANOS};
use crate::text::{
    concat2, decimal, entries_of, find_entry, find_first, lemma_find_skip, same_text,
    u64_to_decimal,
};

verus! {

/// The number a queue gives a job.
#[derive(Debug, Clone, Copy, PartialEq, Eq, Hash, Structural)]
pub struct JobId(pub u64);

impl JobId {
    /// The text the id displays: `#` followed by the number.
    pub fn display(&self) -> (s: String)
        ensures
            s@ == "#"@ + decimal(self.0 as nat),
    {
        let n = u64_to_decimal(self.0);
        concat2("#", n.as_str())
    }
}

/// What a job does.
#[derive(Debug, Clone, Copy, PartialEq, Eq, Structural)]
pub enum JobType {
    Replication,
    VirusScan,
    ThumbnailGeneration,
    MetadataIndexing,
    Notification,
}

/// Where a job stands.
#[derive(Debug, Clone, Copy, PartialEq, Eq, Structural)]
pub enum JobStatus {
    Pending,
    Running,
    Completed,
    Failed,
    RetryScheduled,
}

/// Attempts made on a job and when it may be tried again. Times are
/// nanoseconds since the UNIX epoch.
#[derive(Debug, Clone)]
pub struct JobMetadata {
    pub attempt_count: u32,
    pub max_retries: u32,
    pub next_retry_at: Option<u128>,
    pub last_error: Option<String>,
}

/// Whether a retry is scheduled at or before `now`.
pub open spec fn retry_time_reached(m: JobMetadata, now: u128) -> bool {
    m.next_retry_at matches Some(t) && now >= t
}

impl JobMetadata {
    /// No attempt made yet, no retry scheduled, no error recorded.
    pub fn new(max_retries: u32) -> (m: Self)
        ensures
            m.attempt_count == 0,
            m.max_retries == max_retries,
            m.next_retry_at is None,
            m.last_error is None,
    {
        JobMetadata { attempt_count: 0, max_retries, next_retry_at: None, last_error: None }
    }

    /// A copy of the bookkeeping.
    pub fn duplicate(&self) -> (m: Self)
        ensures
            m == *self,
    {
        let last_error = match &self.last_error {
            Some(e) => Some(e.clone()),
            None => None,
        };
        JobMetadata {
            attempt_count: self.attempt_count,
            max_retries: self.max_retries,
            next_retry_at: self.next_retry_at,
            last_error,
        }
    }

    /// Whether fewer attempts than allowed have been made.
    pub fn can_retry(&self) -> (r: bool)
        ensures
            r == (self.attempt_count < self.max_retries),
    {
        self.attempt_count < self.max_retries
    }

    /// Counts one more attempt and keeps its error, replacing the last one.
    pub fn record_attempt(&mut self, error: Option<String>)
        requires
            old(self).attempt_count < u32::MAX,
        ensures
            final(self).attempt_count == old(self).attempt_count + 1,
            final(self).last_error == error,
            final(self).max_retries == old(self).max_retries,
            final(self).next_retry_at == old(self).next_retry_at,
    {
        self.attempt_count = self.attempt_count + 1;
        self.last_error = error;
    }

    /// Schedules the next retry `delay` nanoseconds after `now`.
    pub fn schedule_retry_at(&mut self, now: u128, delay: u128)
        requires
            now <= MAX_DURATION_NANOS,
            delay <= MAX_DURATION_NANOS,
        ensures
            final(self).next_retry_at == Some((now + delay) as u128),
            final(self).attempt_count == old(self).attempt_count,
            final(self).max_retries == old(self).max_retries,
            final(self).last_error == old(self).last_error,
    {
        self.next_retry_at = Some(now + delay);
    }

    /// Schedules the next retry `delay` nanoseconds from the present moment.
    pub fn schedule_retry(&mut self, delay: u128)
        requires
            delay <= MAX_DURATION_NANOS,
        ensures
            final(self).next_retry_at is Some,
            final(self).next_retry_at->0 >= delay,
            final(self).attempt_count == old(self).attempt_count,
            final(self).max_retries == old(self).max_retries,
            final(self).last_error == old(self).last_error,
    {
        let now = now_nanos();
        self.schedule_retry_at(now, delay);
    }

    /// Whether a retry is scheduled at or before `now`.
    pub fn is_ready_for_retry_at(&self, now: u128) -> (r: bool)
        ensures
            r == (self.next_retry_at matches Some(t) && now >= t),
    {
        match self.next_retry_at {
            Some(t) => now >= t,
            None => false,
        }
    }

    /// Whether a retry is scheduled and its time has come. Without a
    /// scheduled retry the answer is `false`, whatever the clock says.
    pub fn is_ready_for_retry(&self) -> (r: bool)
        ensures
            self.next_retry_at is None ==> !r,
            r ==> self.next_retry_at is Some,
            exists|now: u128| now <= MAX_DURATION_NANOS && r == #[trigger] retry_time_reached(*self, now),
    {
        let now = now_nanos();
        let r = self.is_ready_for_retry_at(now);
        assert(now <= MAX_DURATION_NANOS && r == retry_time_reached(*self, now));
        r
    }
}

/// The string fields a job carries, in the order they were set.
#[derive(Debug, Clone)]
pub struct JobPayload {
    pub fields: Vec<(String, String)>,
}

pub proof fn lemma_find_update(
    s: Seq<(Seq<char>, Seq<char>)>,
    i: int,
    key: Seq<char>,
    v: Seq<char>,
    k: Seq<char>,
)
    requires
        0 <= i < s.len(),
        s[i].0 == key,
    ensures
        find_first(s, k) is Some ==> find_first(s.update(i, (key, v)), k) is Some,
        k != key ==> find_first(s.update(i, (key, v)), k) == find_first(s, k),
        (forall|j: int| 0 <= j < i ==> (#[trigger] s[j]).0 != key) ==> find_first(
            s.update(i, (key, v)),
            key,
        ) == Some(v),
    decreases s.len(),
{
    let u = s.update(i, (key, v));
    if i > 0 {
        lemma_find_update(s.drop_first(), i - 1, key, v, k);
        assert(u.drop_first() =~= s.drop_first().update(i - 1, (key, v)));
        if forall|j: int| 0 <= j < i ==> (#[trigger] s[j]).0 != key {
            assert(s[0].0 != key);
            assert forall|j: int| 0 <= j < i - 1 implies (#[trigger] s.drop_first()[j]).0 != key by {
                assert(s.drop_first()[j] == s[j + 1]);
            }
        }
    } else {
        assert(u.drop_first() =~= s.drop_first());
    }
}

pub proof fn lemma_find_push(s: Seq<(Seq<char>, Seq<char>)>, x: (Seq<char>, Seq<char>), k: Seq<char>)
    ensures
        find_first(s.push(x), k) == (match find_first(s, k) {
            Some(v) => Some(v),
            None => if x.0 == k { Some(x.1) } else { None },
        }),
    decreases s.len(),
{
    if s.len() > 0 {
        lemma_find_push(s.drop_first(), x, k);
        assert(s.push(x).drop_first() =~= s.drop_first().push(x));
        assert(s.push(x)[0] == s[0]);
    } else {
        let empty = Seq::<(Seq<char>, Seq<char>)>::empty();
        assert(s.push(x).drop_first() =~= empty);
        assert(find_first(empty, k) is None);
        assert(s.push(x)[0] == x);
    }
}

impl JobPayload {
    /// The fields as pairs of character sequences.
    pub open spec fn entries(self) -> Seq<(Seq<char>, Seq<char>)> {
        entries_of(self.fields@)
    }

    /// The value of the first field named `key`.
    pub open spec fn lookup(self, key: Seq<char>) -> Option<Seq<char>> {
        find_first(self.entries(), key)
    }

    /// A payload without fields.
    pub fn new() -> (p: Self)
        ensures
            p.entries().len() == 0,
            forall|k: Seq<char>| p.lookup(k) is None,
    {
        let p = JobPayload { fields: Vec::new() };
        assert(p.entries() =~= Seq::<(Seq<char>, Seq<char>)>::empty());
        p
    }

    /// A copy of the payload.
    pub fn duplicate(&self) -> (p: Self)
        ensures
            p.fields@ == self.fields@,
    {
        let mut fields: Vec<(String, String)> = Vec::new();
        let mut i: usize = 0;
        while i < self.fields.len()
            invariant
                i <= self.fields.len(),
                fields@ == self.fields@.subrange(0, i as int),
            decreases self.fields.len() - i,
        {
            let f = &self.fields[i];
            fields.push((f.0.clone(), f.1.clone()));
            i = i + 1;
        }
        assert(fields@ =~= self.fields@);
        JobPayload { fields }
    }

    /// The value of the first field named `key`.
    pub fn get_str(&self, key: &str) -> (r: Option<String>)
        ensures
            match r {
                Some(v) => self.lookup(key@) == Some(v@),
                None => self.lookup(key@) is None,
            },
    {
        match find_entry(&self.fields, key) {
            Some(i) => Some(self.fields[i].1.clone()),
            None => None,
        }
    }

    /// Sets the field named `key`: the first such field takes the value, or
    /// a new field is appended when there is none.
    pub fn set(&mut self, key: &str, value: &str)
        ensures
            final(self).lookup(key@) == Some(value@),
            forall|k: Seq<char>| k != key@ ==> #[trigger] final(self).lookup(k) == old(self).lookup(k),
    {
        let ghost e = self.entries();
        let mut i: usize = 0;
        while i < self.fields.len()
            invariant
                e == self.entries(),
                self.fields == old(self).fields,
                i <= self.fields.len(),
                forall|j: int| 0 <= j < i ==> (#[trigger] e[j]).0 != key@,
            decreases self.fields.len() - i,
        {
            if same_text(self.fields[i].0.as_str(), key) {
                self.fields.set(i, (key.to_owned(), value.to_owned()));
                proof {
                    assert(self.entries() =~= e.update(i as int, (key@, value@)));
                    lemma_find_update(e, i as int, key@, value@, key@);
                    assert forall|k: Seq<char>| k != key@ implies #[trigger] self.lookup(k) == old(
                        self,
                    ).lookup(k) by {
                        lemma_find_update(e, i as int, key@, value@, k);
                    }
                }
                return;
            }
            i = i + 1;
        }
        self.fields.push((key.to_owned(), value.to_owned()));
        proof {
            assert(self.entries() =~= e.push((key@, value@)));
            lemma_find_skip(e, i as int, key@);
            lemma_find_push(e, (key@, value@), key@);
            assert forall|k: Seq<char>| k != key@ implies #[trigger] self.lookup(k) == old(self).lookup(
                k,
            ) by {
                lemma_find_push(e, (key@, value@), k);
            }
        }
    }
}

/// A unit of background work.
#[derive(Debug, Clone)]
pub struct Job {
    pub id: JobId,
    pub job_type: JobType,
    pub status: JobStatus,
    pub metadata: JobMetadata,
    pub created_at: u128,
    pub updated_at: u128,
    pub payload: JobPayload,
}

impl Job {
    /// Equal field by field, the payload compared by its fields.
    pub open spec fn same_as(self, other: Job) -> bool {
        &&& self.id == other.id
        &&& self.job_type == other.job_type
        &&& self.status == other.status
        &&& self.metadata == other.metadata
        &&& self.created_at == other.created_at
        &&& self.updated_at == other.updated_at
        &&& self.payload.fields@ == other.payload.fields@
    }

    /// A copy of the job.
    pub fn duplicate(&self) -> (j: Self)
        ensures
            j.same_as(*self),
    {
        Job {
            id: self.id,
            job_type: self.job_type,
            status: self.status,
            metadata: self.metadata.duplicate(),
            created_at: self.created_at,
            updated_at: self.updated_at,
            payload: self.payload.duplicate(),
        }
    }

    /// A pending job with id 0, no attempts yet, created and updated now.
    pub fn new(job_type: JobType, payload: JobPayload, max_retries: u32) -> (j: Self)
        ensures
            j.id == JobId(0),
            j.job_type == job_type,
            j.status == JobStatus::Pending,
            j.metadata.attempt_count == 0,
            j.metadata.max_retries == max_retries,
            j.metadata.next_retry_at is None,
            j.metadata.last_error is None,
            j.created_at == j.updated_at,
            j.payload == payload,
    {
        let now = now_nanos();
        Job {
            id: JobId(0),
            job_type,
            status: JobStatus::Pending,
            metadata: JobMetadata::new(max_retries),
            created_at: now,
            updated_at: now,
            payload,
        }
    }
}

} // verus!
