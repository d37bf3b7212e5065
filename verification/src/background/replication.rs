//! Replication of uploaded files: which events produce jobs, which local
//! file an upload refers to, and how a job's outcome is judged. `app/` walks
//! the file system, runs the uploads and publishes the events.
use vstd::prelude::*;
use crate::event::types::FtpEvent;
use crate::job::traits::{job_retryable, JobError, JobResult};
use crate::job::types::{Job, JobPayload, JobStatus, JobType};
use crate::job::worker::status_after_spec;
use crate::storage::traits::{storage_message, storage_retryable, StorageError};
use crate::text::{chars_of, concat2, string_of};

use crate::paths::{joined_path, path_join};

verus! {

/// The jobs that replication handlers create are tried this many times.
pub const REPLICATION_MAX_RETRIES: u32 = 3;

/// Creates a replication job for every uploaded file.
pub struct ReplicationHandler {
    home_dir: String,
}

/// A file found under the home folder: its full path, its path relative to
/// the home folder with `/` separators, and when it was last modified
/// (nanoseconds since the UNIX epoch) when that is known.
pub struct FileEntry {
    pub path: String,
    pub relative: String,
    pub modified: Option<u128>,
}

/// `s` without its leading `/` and `\` characters.
pub open spec fn strip_leading_separators(s: Seq<char>) -> Seq<char>
    decreases s.len(),
{
    if s.len() > 0 && (s[0] == '/' || s[0] == '\\') {
        strip_leading_separators(s.drop_first())
    } else {
        s
    }
}

/// `s` with every `\` turned into `/`.
pub open spec fn forward_slashes(s: Seq<char>) -> Seq<char> {
    s.map_values(|c: char| if c == '\\' { '/' } else { c })
}

/// The storage key of an uploaded path: without leading separators, with
/// forward slashes only.
pub open spec fn upload_key_spec(raw: Seq<char>) -> Seq<char> {
    forward_slashes(strip_leading_separators(raw))
}

/// Whether `s` ends with `p`.
pub open spec fn ends_with(s: Seq<char>, p: Seq<char>) -> bool {
    p.len() <= s.len() && s.subrange(s.len() - p.len(), s.len() as int) == p
}

/// Whether a file's relative path is the uploaded path, or ends with it as
/// whole trailing components.
pub open spec fn upload_match(relative: Seq<char>, key: Seq<char>) -> bool {
    relative == key || ends_with(relative, "/"@ + key)
}

/// How recent a matching file counts as: the first by its modification time
/// (the epoch when that is unknown); a later one only when its time is known.
pub open spec fn recency(first: bool, modified: Option<u128>) -> int {
    match modified {
        Some(t) => t as int,
        None => if first { 0 } else { -1 },
    }
}

/// Whether `w` is the first of the most recent entries of `m`.
pub open spec fn is_newest(m: Seq<Option<u128>>, w: int) -> bool {
    &&& 0 <= w < m.len()
    &&& forall|j: int| 0 <= j < m.len() ==> recency(j == 0, m[j]) <= recency(w == 0, m[w])
    &&& forall|j: int| 0 <= j < w ==> recency(j == 0, m[j]) < recency(w == 0, m[w])
}

/// The position of the first of the most recent modification times.
pub fn pick_newest(modified: &Vec<Option<u128>>) -> (r: Option<usize>)
    ensures
        match r {
            Some(w) => is_newest(modified@, w as int),
            None => modified@.len() == 0,
        },
{
    if modified.len() == 0 {
        return None;
    }
    let mut best: usize = 0;
    let mut best_time: u128 = match modified[0] {
        Some(t) => t,
        None => 0,
    };
    let mut i: usize = 1;
    while i < modified.len()
        invariant
            1 <= i <= modified@.len(),
            best < i,
            best_time as int == recency(best == 0, modified@[best as int]),
            forall|j: int| 0 <= j < i ==> recency(j == 0, modified@[j]) <= best_time,
            forall|j: int| 0 <= j < best ==> recency(j == 0, modified@[j]) < best_time,
        decreases modified.len() - i,
    {
        match modified[i] {
            Some(t) => {
                if t > best_time {
                    best = i;
                    best_time = t;
                }
            },
            None => {},
        }
        i = i + 1;
    }
    Some(best)
}

/// Whether `s` ends with `p`.
pub fn ends_with_chars(s: &Vec<char>, p: &Vec<char>) -> (r: bool)
    ensures
        r == ends_with(s@, p@),
{
    if p.len() > s.len() {
        return false;
    }
    let off = s.len() - p.len();
    let mut j: usize = 0;
    while j < p.len()
        invariant
            off + p.len() == s.len(),
            j <= p.len(),
            forall|k: int| 0 <= k < j ==> s@[off + k] == p@[k],
        decreases p.len() - j,
    {
        if s[off + j] != p[j] {
            assert(s@.subrange(off as int, s@.len() as int)[j as int] != p@[j as int]);
            return false;
        }
        j = j + 1;
    }
    assert(s@.subrange(off as int, s@.len() as int) =~= p@);
    true
}

/// Whether a file's relative path matches the uploaded path.
pub fn matches_upload(relative: &str, key: &str) -> (r: bool)
    ensures
        r == upload_match(relative@, key@),
{
    let rel = chars_of(relative);
    let k = chars_of(key);
    if rel.len() == k.len() {
        let mut i: usize = 0;
        let mut same = true;
        while i < k.len()
            invariant
                rel@ == relative@,
                k@ == key@,
                rel@.len() == k@.len(),
                i <= k@.len(),
                same == forall|j: int| 0 <= j < i ==> rel@[j] == k@[j],
            decreases k.len() - i,
        {
            if rel[i] != k[i] {
                same = false;
            }
            i = i + 1;
        }
        if same {
            assert(rel@ =~= k@);
            return true;
        }
        assert(relative@ != key@ ==> !ends_with(relative@, "/"@ + key@)) by {
            reveal_strlit("/");
        }
        return false;
    }
    let mut tail: Vec<char> = Vec::new();
    tail.push('/');
    let mut i: usize = 0;
    while i < k.len()
        invariant
            k@ == key@,
            i <= k@.len(),
            tail@ == seq!['/'] + k@.subrange(0, i as int),
        decreases k.len() - i,
    {
        tail.push(k[i]);
        proof {
            assert(tail@ =~= seq!['/'] + k@.subrange(0, i + 1));
        }
        i = i + 1;
    }
    proof {
        reveal_strlit("/");
        assert(tail@ =~= "/"@ + key@);
    }
    ends_with_chars(&rel, &tail)
}

/// The local file and storage key that an upload is replicated from and to.
/// The direct path under the home folder wins when it is a file; otherwise
/// the most recent matching file found under the home folder; otherwise the
/// direct path.
pub open spec fn resolved_upload(
    key: Seq<char>,
    direct: Seq<char>,
    direct_is_file: bool,
    files: Seq<FileEntry>,
) -> Set<(Seq<char>, Seq<char>)> {
    let matched = files.filter(|f: FileEntry| upload_match(f.relative@, key));
    if direct_is_file || matched.len() == 0 {
        set![(direct, key)]
    } else {
        Set::new(
            |p: (Seq<char>, Seq<char>)|
                exists|w: int|
                    is_newest(matched.map_values(|f: FileEntry| f.modified), w) && p == (
                        matched[w].path@,
                        matched[w].relative@,
                    ),
        )
    }
}

/// A path found under the home folder, with forward slashes only, as it is
/// compared with upload keys.
pub fn relative_key(path: &str) -> (k: String)
    ensures
        k@ == forward_slashes(path@),
{
    let chars = chars_of(path);
    let mut out: Vec<char> = Vec::new();
    let mut i: usize = 0;
    while i < chars.len()
        invariant
            chars@ == path@,
            i <= chars@.len(),
            out@ == forward_slashes(chars@.subrange(0, i as int)),
        decreases chars.len() - i,
    {
        let c = chars[i];
        out.push(if c == '\\' { '/' } else { c });
        proof {
            assert(out@ =~= forward_slashes(chars@.subrange(0, i + 1)));
        }
        i = i + 1;
    }
    proof {
        assert(chars@.subrange(0, chars@.len() as int) =~= path@);
    }
    string_of(&out)
}

impl ReplicationHandler {
    /// A handler for uploads stored under `home_dir`.
    pub fn new(home_dir: String) -> (h: Self)
        ensures
            h.home_dir() == home_dir@,
    {
        ReplicationHandler { home_dir }
    }

    /// The home folder, as characters.
    pub closed spec fn home_dir(&self) -> Seq<char> {
        self.home_dir@
    }

    /// The home folder.
    pub fn home(&self) -> (s: &String)
        ensures
            s@ == self.home_dir(),
    {
        &self.home_dir
    }

    /// The file an upload's storage key names directly under the home
    /// folder.
    pub fn direct_path(&self, key: &str) -> (p: String)
        ensures
            p@ == joined_path(self.home_dir(), key@),
    {
        path_join(self.home_dir.as_str(), key)
    }

    /// The handler's name.
    pub fn name(&self) -> (n: &'static str)
        ensures
            n@ == "replication"@,
    {
        "replication"
    }

    /// Only uploads produce replication jobs.
    pub fn interested_in(&self, event: &FtpEvent) -> (r: bool)
        ensures
            r == (*event is FileUploaded),
    {
        match event {
            FtpEvent::FileUploaded { .. } => true,
            _ => false,
        }
    }

    /// The storage key of an uploaded path.
    pub fn upload_key(raw: &str) -> (k: String)
        ensures
            k@ == upload_key_spec(raw@),
    {
        let chars = chars_of(raw);
        let mut start: usize = 0;
        proof {
            assert(chars@.subrange(0, chars@.len() as int) =~= raw@);
        }
        while start < chars.len() && (chars[start] == '/' || chars[start] == '\\')
            invariant
                chars@ == raw@,
                start <= chars@.len(),
                strip_leading_separators(raw@) == strip_leading_separators(
                    chars@.subrange(start as int, chars@.len() as int),
                ),
            decreases chars.len() - start,
        {
            proof {
                assert(chars@.subrange(start as int, chars@.len() as int).drop_first() =~= chars@.subrange(
                    start + 1,
                    chars@.len() as int,
                ));
            }
            start = start + 1;
        }
        let ghost rest = chars@.subrange(start as int, chars@.len() as int);
        let mut out: Vec<char> = Vec::new();
        let mut i: usize = start;
        while i < chars.len()
            invariant
                start <= i <= chars@.len(),
                rest == chars@.subrange(start as int, chars@.len() as int),
                out@ == forward_slashes(chars@.subrange(start as int, i as int)),
            decreases chars.len() - i,
        {
            let c = chars[i];
            out.push(if c == '\\' { '/' } else { c });
            proof {
                assert(out@ =~= forward_slashes(chars@.subrange(start as int, i + 1)));
            }
            i = i + 1;
        }
        proof {
            assert(chars@.subrange(start as int, chars@.len() as int) =~= rest);
            if start == 0 {
                assert(chars@.subrange(0, chars@.len() as int) =~= raw@);
            }
        }
        string_of(&out)
    }

    /// Chooses the local file and the storage key for an upload whose key is
    /// `key`. `direct` is the key joined to the home folder and
    /// `direct_is_file` whether that is a file; `files` lists the files found
    /// under the home folder, in the order the search met them.
    pub fn resolve_upload(key: &str, direct: &str, direct_is_file: bool, files: &Vec<FileEntry>) -> (r: (
        String,
        String,
    ))
        ensures
            resolved_upload(key@, direct@, direct_is_file, files@).contains((r.0@, r.1@)),
    {
        let ghost pred = |f: FileEntry| upload_match(f.relative@, key@);
        if direct_is_file {
            return (direct.to_owned(), key.to_owned());
        }
        let mut positions: Vec<usize> = Vec::new();
        let mut modified: Vec<Option<u128>> = Vec::new();
        let ghost matched: Seq<FileEntry> = seq![];
        let mut i: usize = 0;
        while i < files.len()
            invariant
                pred == (|f: FileEntry| upload_match(f.relative@, key@)),
                i <= files@.len(),
                matched == files@.subrange(0, i as int).filter(pred),
                positions@.len() == matched.len(),
                modified@ == matched.map_values(|f: FileEntry| f.modified),
                forall|k: int|
                    0 <= k < positions@.len() ==> #[trigger] positions@[k] < files@.len() && files@[positions@[k] as int]
                        == matched[k],
            decreases files.len() - i,
        {
            let f = &files[i];
            proof {
                assert(files@.subrange(0, i + 1) =~= files@.subrange(0, i as int).push(*f));
                files@.subrange(0, i as int).lemma_filter_push(*f, pred);
            }
            if matches_upload(f.relative.as_str(), key) {
                positions.push(i);
                modified.push(f.modified);
                proof {
                    matched = matched.push(*f);
                    assert(modified@ =~= matched.map_values(|f: FileEntry| f.modified));
                }
            }
            i = i + 1;
        }
        proof {
            assert(files@.subrange(0, files@.len() as int) =~= files@);
        }
        match pick_newest(&modified) {
            Some(w) => {
                let f = &files[positions[w]];
                let r = (f.path.clone(), f.relative.clone());
                proof {
                    let target = (r.0@, r.1@);
                    assert(is_newest(matched.map_values(|f: FileEntry| f.modified), w as int) && target == (
                        matched[w as int].path@,
                        matched[w as int].relative@,
                    ));
                }
                r
            },
            None => {
                assert(matched.len() == 0);
                (direct.to_owned(), key.to_owned())
            },
        }
    }

    /// The replication job for an uploaded file: its local path, its storage
    /// key and who uploaded it, tried up to three times.
    pub fn make_job(username: &str, source_path: &str, dest_path: &str) -> (j: Job)
        ensures
            j.job_type == JobType::Replication,
            j.status == JobStatus::Pending,
            j.metadata.max_retries == REPLICATION_MAX_RETRIES,
            j.metadata.attempt_count == 0,
            j.payload.lookup("source_path"@) == Some(source_path@),
            j.payload.lookup("dest_path"@) == Some(dest_path@),
            j.payload.lookup("username"@) == Some(username@),
    {
        proof {
            reveal_strlit("source_path");
            reveal_strlit("dest_path");
            reveal_strlit("username");
            assert("source_path"@[0] != "dest_path"@[0]);
            assert("source_path"@[0] != "username"@[0]);
            assert("dest_path"@[0] != "username"@[0]);
            assert("source_path"@ != "dest_path"@);
            assert("source_path"@ != "username"@);
            assert("dest_path"@ != "username"@);
        }
        let mut payload = JobPayload::new();
        payload.set("source_path", source_path);
        let ghost p1 = payload;
        payload.set("dest_path", dest_path);
        assert(payload.lookup("source_path"@) == p1.lookup("source_path"@));
        let ghost p2 = payload;
        payload.set("username", username);
        assert(payload.lookup("source_path"@) == p2.lookup("source_path"@));
        assert(payload.lookup("dest_path"@) == p2.lookup("dest_path"@));
        Job::new(JobType::Replication, payload, REPLICATION_MAX_RETRIES)
    }
}

/// Uploads a job's file to the storage backend. `app/` holds the backend
/// and the event bus beside it.
pub struct ReplicationExecutor {
    pub print_messages: bool,
}

/// What an upload's failure becomes: a transient job error when the storage
/// error is retryable, a storage job error otherwise, both with its text.
pub open spec fn upload_outcome_spec(result: Result<(), StorageError>) -> Option<(bool, Seq<char>)> {
    match result {
        Ok(()) => None,
        Err(e) => Some((storage_retryable(e), storage_message(e))),
    }
}

/// The text a storage or transient job error carries.
pub open spec fn carried_text(e: JobError) -> Option<Seq<char>> {
    match e {
        JobError::Transient(m) => Some(m@),
        JobError::Storage(m) => Some(m@),
        _ => None,
    }
}

impl ReplicationExecutor {
    /// An executor that prints a line per replicated file when asked to.
    pub fn new(print_messages: bool) -> (e: Self)
        ensures
            e.print_messages == print_messages,
    {
        ReplicationExecutor { print_messages }
    }

    /// The executor's name, which serves replication jobs.
    pub fn name(&self) -> (n: &'static str)
        ensures
            n@ == "replication"@,
    {
        "replication"
    }

    /// The local path and storage key a job names; a configuration error
    /// when either is missing, the local path being checked first.
    pub fn read_paths(job: &Job) -> (r: Result<(String, String), JobError>)
        ensures
            job.payload.lookup("source_path"@) is None ==> (r matches Err(JobError::Config(m)) && m@
                == "Missing source_path in payload"@),
            job.payload.lookup("source_path"@) is Some && job.payload.lookup("dest_path"@) is None
                ==> (r matches Err(JobError::Config(m)) && m@ == "Missing dest_path in payload"@),
            job.payload.lookup("source_path"@) is Some && job.payload.lookup("dest_path"@) is Some
                ==> (r matches Ok((s, d)) && Some(s@) == job.payload.lookup("source_path"@) && Some(d@)
                == job.payload.lookup("dest_path"@)),
    {
        let source = match job.payload.get_str("source_path") {
            Some(s) => s,
            None => return Err(JobError::Config("Missing source_path in payload".to_owned())),
        };
        let dest = match job.payload.get_str("dest_path") {
            Some(d) => d,
            None => return Err(JobError::Config("Missing dest_path in payload".to_owned())),
        };
        Ok((source, dest))
    }

    /// The permanent failure of a job whose local file is gone.
    pub fn missing_source(source: &str) -> (e: JobError)
        ensures
            e matches JobError::Permanent(m) && m@ == "Source file not found: "@ + source@,
    {
        JobError::Permanent(concat2("Source file not found: ", source))
    }

    /// The job's outcome after the upload: success, or a failure that is
    /// retryable exactly when the storage error is.
    pub fn upload_outcome(result: Result<(), StorageError>) -> (r: JobResult)
        ensures
            result is Ok ==> r is Ok,
            result matches Err(e) ==> (r matches Err(je) && job_retryable(je) == storage_retryable(e)
                && (if storage_retryable(e) { je is Transient } else { je is Storage })),
            result matches Err(e) ==> (!(e is Io) ==> (r matches Err(je) && carried_text(je) == Some(
                storage_message(e),
            ))),
    {
        match result {
            Ok(()) => Ok(()),
            Err(e) => {
                let message = e.message();
                if e.is_retryable() {
                    Err(JobError::Transient(message))
                } else {
                    Err(JobError::Storage(message))
                }
            },
        }
    }

    /// The event that reports a replication's result.
    pub fn replication_event(ok: bool, path: &str, error: Option<&str>) -> (e: FtpEvent)
        ensures
            e matches FtpEvent::Replication { path: p, ok: o, error: err } && p@ == path@ && o == ok
                && match error {
                Some(m) => err matches Some(x) && x@ == m@,
                None => err is None,
            },
    {
        FtpEvent::Replication {
            path: path.to_owned(),
            ok,
            error: match error {
                Some(m) => Some(m.to_owned()),
                None => None,
            },
        }
    }
}

proof fn lemma_strip_leading_result(s: Seq<char>)
    ensures
        strip_leading_separators(s).len() == 0 || (strip_leading_separators(s)[0] != '/'
            && strip_leading_separators(s)[0] != '\\'),
    decreases s.len(),
{
    if s.len() > 0 && (s[0] == '/' || s[0] == '\\') {
        lemma_strip_leading_result(s.drop_first());
    }
}

/// Taking the storage key of a storage key changes nothing: keys have no
/// leading separators and only forward slashes.
pub proof fn law_upload_key_idempotent(raw: Seq<char>)
    ensures
        upload_key_spec(upload_key_spec(raw)) == upload_key_spec(raw),
{
    let k = upload_key_spec(raw);
    lemma_strip_leading_result(raw);
    assert(strip_leading_separators(k) == k) by {
        if k.len() > 0 {
            assert(k[0] == strip_leading_separators(raw)[0]);
        }
    }
    assert(forward_slashes(k) =~= k);
}

/// A failed upload leads its job to be scheduled for retry exactly when the
/// storage error is retryable, and to fail for good otherwise.
pub proof fn law_upload_failure_status(e: StorageError, je: JobError)
    requires
        job_retryable(je) == storage_retryable(e),
    ensures
        status_after_spec(Err(je)) == (if storage_retryable(e) {
            JobStatus::RetryScheduled
        } else {
            JobStatus::Failed
        }),
{
}

} // verus!
