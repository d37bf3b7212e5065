//! Errors of job execution and of job queues.
use vstd::prelude::*;
use crate::storage::traits::io_error_text;
use crate::text::concat2;

verus! {

/// The outcome of executing a job.
pub type JobResult = Result<(), JobError>;

/// Why a job failed.
#[derive(Debug)]
pub enum JobError {
    Storage(String),
    Io(std::io::Error),
    Config(String),
    Transient(String),
    Permanent(String),
}

/// Transient and I/O failures are worth retrying.
pub open spec fn job_retryable(e: JobError) -> bool {
    e is Transient || e is Io
}

/// The text that the error displays, for every variant but `Io`, whose
/// detail comes from the operating system.
pub open spec fn job_message(e: JobError) -> Seq<char> {
    match e {
        JobError::Storage(m) => "Storage error: "@ + m@,
        JobError::Io(_) => "IO error: "@,
        JobError::Config(m) => "Configuration error: "@ + m@,
        JobError::Transient(m) => "Transient error: "@ + m@ + " (retryable)"@,
        JobError::Permanent(m) => "Permanent error: "@ + m@,
    }
}

impl JobError {
    /// Whether the failed job should be scheduled for another attempt.
    pub fn is_retryable(&self) -> (r: bool)
        ensures
            r == job_retryable(*self),
    {
        match self {
            JobError::Transient(_) | JobError::Io(_) => true,
            _ => false,
        }
    }

    /// The text that the error displays. For `Io` it is `IO error: ` followed
    /// by the operating system's text for the error.
    pub fn message(&self) -> (s: String)
        ensures
            !(*self is Io) ==> s@ == job_message(*self),
            *self is Io ==> s@.len() >= 10 && s@.subrange(0, 10) == job_message(*self),
    {
        match self {
            JobError::Storage(m) => concat2("Storage error: ", m.as_str()),
            JobError::Io(e) => {
                let detail = io_error_text(e);
                let s = concat2("IO error: ", detail.as_str());
                proof {
                    reveal_strlit("IO error: ");
                    assert(s@.subrange(0, 10) =~= "IO error: "@);
                }
                s
            },
            JobError::Config(m) => concat2("Configuration error: ", m.as_str()),
            JobError::Transient(m) => {
                let head = concat2("Transient error: ", m.as_str());
                concat2(head.as_str(), " (retryable)")
            },
            JobError::Permanent(m) => concat2("Permanent error: ", m.as_str()),
        }
    }
}

/// Why a queue refused an operation.
#[derive(Debug)]
pub enum QueueError {
    Full,
    Empty,
    NotFound(String),
    Internal(String),
}

/// The text that the queue error displays.
pub open spec fn queue_message(e: QueueError) -> Seq<char> {
    match e {
        QueueError::Full => "Queue full"@,
        QueueError::Empty => "Queue empty"@,
        QueueError::NotFound(m) => "Job not found: "@ + m@,
        QueueError::Internal(m) => "Internal error: "@ + m@,
    }
}

impl QueueError {
    /// The text that the queue error displays.
    pub fn message(&self) -> (s: String)
        ensures
            s@ == queue_message(*self),
    {
        match self {
            QueueError::Full => "Queue full".to_owned(),
            QueueError::Empty => "Queue empty".to_owned(),
            QueueError::NotFound(m) => concat2("Job not found: ", m.as_str()),
            QueueError::Internal(m) => concat2("Internal error: ", m.as_str()),
        }
    }
}

} // verus!
