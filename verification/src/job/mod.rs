//! Background jobs: their types, errors, queue and retry and worker decisions.
pub mod types;
pub mod traits;
pub mod queue;
pub mod scheduler;
pub mod worker;

pub use types::{Job, JobId, JobMetadata, JobPayload, JobStatus, JobType};
pub use traits::{JobError, JobResult, QueueError};
