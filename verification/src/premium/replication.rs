//! Replication in the earlier background job system: an upload's storage key
//! is its path without leading slashes, found directly under the home folder.
use vstd::prelude::*;
use crate::background::replication::ReplicationExecutor as Executor;
use crate::event::types::FtpEvent;
use crate::paths::{joined_path, path_join};
use crate::job::traits::{job_retryable, JobResult};
use crate::text::{strip_leading_slashes, trim_start_slashes};
use crate::storage::traits::{storage_retryable, StorageError};

verus! {

/// Creates a replication job for every uploaded file.
pub struct ReplicationHandler {
    home_dir: String,
}

impl ReplicationHandler {
    /// A handler for uploads stored under `home_dir`.
    pub fn new(home_dir: String) -> (h: Self)
        ensures
            h.home_dir() == home_dir@,
    {
        ReplicationHandler { home_dir }
    }

    /// The home folder, as characters.
    pub closed spec fn home_dir(&self) -> Seq<char> {
        self.home_dir@
    }

    /// Only uploads produce replication jobs.
    pub fn interested_in(&self, event: &FtpEvent) -> (r: bool)
        ensures
            r == (*event is FileUploaded),
    {
        match event {
            FtpEvent::FileUploaded { .. } => true,
            _ => false,
        }
    }

    /// The local file and the storage key of an upload: the path without
    /// leading slashes, joined to the home folder, and that path itself.
    pub fn upload_paths(&self, path: &str) -> (r: (String, String))
        ensures
            r.1@ == trim_start_slashes(path@),
            r.0@ == joined_path(self.home_dir(), trim_start_slashes(path@)),
    {
        let dest = strip_leading_slashes(path);
        let source = path_join(self.home_dir.as_str(), dest.as_str());
        (source, dest)
    }
}

/// Uploads a job's file to the storage backend held beside it in `app/`.
pub struct ReplicationExecutor {
    inner: Executor,
}

impl ReplicationExecutor {
    /// Whether a line is printed per replicated file.
    pub closed spec fn prints_messages(&self) -> bool {
        self.inner.print_messages
    }

    /// An executor that prints a line per replicated file.
    pub fn new() -> (e: Self)
        ensures
            e.prints_messages(),
    {
        ReplicationExecutor { inner: Executor::new(true) }
    }

    /// The executor's name, which serves replication jobs.
    pub fn name(&self) -> (n: &'static str)
        ensures
            n@ == "replication"@,
    {
        self.inner.name()
    }

    /// The job's outcome after the upload: success, or a failure that is
    /// retryable exactly when the storage error is.
    pub fn upload_outcome(result: Result<(), StorageError>) -> (r: JobResult)
        ensures
            result is Ok ==> r is Ok,
            result matches Err(e) ==> (r matches Err(je) && job_retryable(je) == storage_retryable(e)
                && (if storage_retryable(e) { je is Transient } else { je is Storage })),
    {
        Executor::upload_outcome(result)
    }
}

} // verus!
