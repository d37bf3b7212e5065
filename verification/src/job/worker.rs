//! The worker's decisions: which executor runs a job and what status the
//! job gets from the outcome. `app/` runs the worker loops.
use vstd::prelude::*;
use crate::job::traits::{job_retryable, JobError, JobResult};
use crate::job::types::{JobStatus, JobType};
use crate::text::{concat2, same_text};

verus! {

/// The executor name that serves a job type: the lower-cased variant name.
pub open spec fn executor_name(t: JobType) -> Seq<char> {
    match t {
        JobType::Replication => "replication"@,
        JobType::VirusScan => "virusscan"@,
        JobType::ThumbnailGeneration => "thumbnailgeneration"@,
        JobType::MetadataIndexing => "metadataindexing"@,
        JobType::Notification => "notification"@,
    }
}

/// The variant name of a job type, as its `Debug` form writes it.
pub open spec fn type_label(t: JobType) -> Seq<char> {
    match t {
        JobType::Replication => "Replication"@,
        JobType::VirusScan => "VirusScan"@,
        JobType::ThumbnailGeneration => "ThumbnailGeneration"@,
        JobType::MetadataIndexing => "MetadataIndexing"@,
        JobType::Notification => "Notification"@,
    }
}

/// The executor name that serves a job type.
pub fn job_type_name(t: JobType) -> (s: &'static str)
    ensures
        s@ == executor_name(t),
{
    match t {
        JobType::Replication => "replication",
        JobType::VirusScan => "virusscan",
        JobType::ThumbnailGeneration => "thumbnailgeneration",
        JobType::MetadataIndexing => "metadataindexing",
        JobType::Notification => "notification",
    }
}

/// The position of the first executor whose name serves the job type.
pub fn find_executor(names: &Vec<String>, t: JobType) -> (r: Option<usize>)
    ensures
        match r {
            Some(i) => i < names@.len() && names@[i as int]@ == executor_name(t) && forall|k: int|
                0 <= k < i ==> (#[trigger] names@[k])@ != executor_name(t),
            None => forall|k: int| 0 <= k < names@.len() ==> (#[trigger] names@[k])@ != executor_name(t),
        },
{
    let wanted = job_type_name(t);
    let mut i: usize = 0;
    while i < names.len()
        invariant
            wanted@ == executor_name(t),
            i <= names.len(),
            forall|k: int| 0 <= k < i ==> (#[trigger] names@[k])@ != executor_name(t),
        decreases names.len() - i,
    {
        if same_text(names[i].as_str(), wanted) {
            return Some(i);
        }
        i = i + 1;
    }
    None
}

/// The error for a job that no executor serves.
pub fn no_executor_error(t: JobType) -> (e: JobError)
    ensures
        e matches JobError::Config(m) && m@ == "No executor for "@ + type_label(t),
{
    let label = match t {
        JobType::Replication => "Replication",
        JobType::VirusScan => "VirusScan",
        JobType::ThumbnailGeneration => "ThumbnailGeneration",
        JobType::MetadataIndexing => "MetadataIndexing",
        JobType::Notification => "Notification",
    };
    JobError::Config(concat2("No executor for ", label))
}

/// The status a job takes after it ran: completed on success, scheduled
/// for retry after a retryable failure, failed otherwise.
pub open spec fn status_after_spec(result: JobResult) -> JobStatus {
    match result {
        Ok(()) => JobStatus::Completed,
        Err(e) => if job_retryable(e) { JobStatus::RetryScheduled } else { JobStatus::Failed },
    }
}

/// The status a job takes after it ran.
pub fn status_after(result: &JobResult) -> (s: JobStatus)
    ensures
        s == status_after_spec(*result),
{
    match result {
        Ok(()) => JobStatus::Completed,
        Err(e) => if e.is_retryable() { JobStatus::RetryScheduled } else { JobStatus::Failed },
    }
}

} // verus!
