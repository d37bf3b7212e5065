use rftps::job::queue::InMemoryQueue;
use rftps::job::scheduler::{enqueue_jobs, retry_delay, schedule_next_retry, with_retry_limit};
use rftps::job::worker::{find_executor, job_type_name, no_executor_error, status_after};
use rftps::job::{Job, JobError, JobId, JobMetadata, JobPayload, JobStatus, JobType, QueueError};

fn test_job() -> Job {
    let mut payload = JobPayload::new();
    payload.set("path", "/test.txt");
    Job::new(JobType::Replication, payload, 3)
}

#[test]
fn test_push_and_pop() {
    let mut queue = InMemoryQueue::new(10);
    queue.push(test_job()).unwrap();
    let popped = queue.pop();
    assert!(popped.is_some());
    assert_eq!(popped.unwrap().job_type, JobType::Replication);
}

#[test]
fn test_pop_empty_queue() {
    let mut queue = InMemoryQueue::new(10);
    let result = queue.pop();
    assert!(result.is_none());
}

#[test]
fn test_queue_full() {
    let mut queue = InMemoryQueue::new(1);
    queue.push(test_job()).unwrap();
    let err = queue.push(test_job()).unwrap_err();
    assert!(matches!(err, QueueError::Full));
}

#[test]
fn test_fifo_order() {
    let mut queue = InMemoryQueue::new(10);

    let mut job1 = test_job();
    job1.payload = JobPayload::new();
    job1.payload.set("id", "1");
    queue.push(job1).unwrap();

    let mut job2 = test_job();
    job2.payload = JobPayload::new();
    job2.payload.set("id", "2");
    queue.push(job2).unwrap();

    let popped1 = queue.pop().unwrap();
    assert_eq!(popped1.payload.get_str("id"), Some("1".to_string()));

    let popped2 = queue.pop().unwrap();
    assert_eq!(popped2.payload.get_str("id"), Some("2".to_string()));
}

#[test]
fn test_peek_retryable_empty() {
    let queue = InMemoryQueue::new(10);
    let retryable = queue.peek_retryable();
    assert!(retryable.is_empty());
}

#[test]
fn test_peek_retryable_with_scheduled_job() {
    let mut queue = InMemoryQueue::new(10);

    let mut retry_job = test_job();
    retry_job.status = JobStatus::RetryScheduled;
    retry_job.metadata.schedule_retry(0);
    queue.push(retry_job).unwrap();

    let retryable = queue.peek_retryable();
    assert_eq!(retryable.len(), 1);
    assert_eq!(retryable[0].status, JobStatus::RetryScheduled);
}

#[test]
fn test_peek_retryable_ignores_pending() {
    let mut queue = InMemoryQueue::new(10);
    queue.push(test_job()).unwrap();

    let retryable = queue.peek_retryable();
    assert!(retryable.is_empty());
}

#[test]
fn queue_numbers_jobs_by_length() {
    let mut queue = InMemoryQueue::new(3);
    queue.push(test_job()).unwrap();
    queue.push(test_job()).unwrap();
    assert_eq!(queue.len(), 2);
    let first = queue.pop().unwrap();
    assert_eq!(first.id, JobId(1));
    // With one job left, the next one is numbered 2 again.
    queue.push(test_job()).unwrap();
    let second = queue.pop().unwrap();
    let third = queue.pop().unwrap();
    assert_eq!(second.id, JobId(2));
    assert_eq!(third.id, JobId(2));
}

#[test]
fn queue_remove_and_update() {
    let mut queue = InMemoryQueue::new(5);
    queue.push(test_job()).unwrap();
    queue.push(test_job()).unwrap();
    assert!(queue.update_status_at(JobId(2), JobStatus::Running, 42).is_ok());
    match queue.update_status(JobId(9), JobStatus::Failed) {
        Err(QueueError::NotFound(m)) => assert_eq!(m, "#9"),
        other => panic!("unexpected {:?}", other),
    }
    assert!(queue.remove(JobId(1)).is_ok());
    match queue.remove(JobId(1)) {
        Err(QueueError::NotFound(m)) => assert_eq!(m, "#1"),
        other => panic!("unexpected {:?}", other),
    }
    let left = queue.pop().unwrap();
    assert_eq!(left.id, JobId(2));
    assert_eq!(left.status, JobStatus::Running);
    assert_eq!(left.updated_at, 42);
    assert!(queue.pop().is_none());
}

#[test]
fn peek_at_a_given_time() {
    let mut queue = InMemoryQueue::new(5);
    let mut job = test_job();
    job.status = JobStatus::RetryScheduled;
    job.metadata.schedule_retry_at(100, 50);
    queue.push(job).unwrap();
    assert!(queue.peek_retryable_at(149).is_empty());
    assert_eq!(queue.peek_retryable_at(150).len(), 1);
}

#[test]
fn metadata_bookkeeping() {
    let mut m = JobMetadata::new(2);
    assert!(m.can_retry());
    m.record_attempt(Some("boom".into()));
    assert_eq!(m.attempt_count, 1);
    assert_eq!(m.last_error.as_deref(), Some("boom"));
    assert!(m.can_retry());
    m.record_attempt(None);
    assert!(!m.can_retry());
    assert!(!m.is_ready_for_retry());
    m.schedule_retry_at(10, 5);
    assert_eq!(m.next_retry_at, Some(15));
    assert!(m.is_ready_for_retry_at(15));
    assert!(!m.is_ready_for_retry_at(14));
}

#[test]
fn new_job_is_stamped_now() {
    let job = test_job();
    assert!(job.created_at > 0);
    assert_eq!(job.created_at, job.updated_at);
    assert_eq!(job.id, JobId(0));
    assert_eq!(job.status, JobStatus::Pending);
    assert_eq!(JobId(17).display(), "#17");
}

#[test]
fn retry_delays_double() {
    assert_eq!(retry_delay(5, 1), 5);
    assert_eq!(retry_delay(5, 2), 10);
    assert_eq!(retry_delay(5, 4), 40);
    let mut job = test_job();
    schedule_next_retry(&mut job, 1000, 7);
    assert_eq!(job.metadata.attempt_count, 1);
    assert_eq!(job.metadata.next_retry_at, Some(1007));
    schedule_next_retry(&mut job, 1000, 7);
    assert_eq!(job.metadata.next_retry_at, Some(2007));
    assert_eq!(with_retry_limit(test_job(), 9).metadata.max_retries, 9);
}

#[test]
fn enqueue_stops_at_capacity() {
    let mut queue = InMemoryQueue::new(2);
    let refused = enqueue_jobs(&mut queue, vec![test_job(), test_job(), test_job()], 7);
    assert_eq!(refused, 1);
    assert_eq!(queue.len(), 2);
    let j = queue.pop().unwrap();
    assert_eq!(j.metadata.max_retries, 7);
    assert_eq!(j.id, JobId(1));
}

#[test]
fn worker_decisions() {
    let names = vec!["notification".to_string(), "replication".to_string()];
    assert_eq!(find_executor(&names, JobType::Replication), Some(1));
    assert_eq!(find_executor(&names, JobType::VirusScan), None);
    assert_eq!(job_type_name(JobType::ThumbnailGeneration), "thumbnailgeneration");
    assert_eq!(status_after(&Ok(())), JobStatus::Completed);
    assert_eq!(status_after(&Err(JobError::Transient("x".into()))), JobStatus::RetryScheduled);
    assert_eq!(status_after(&Err(JobError::Permanent("x".into()))), JobStatus::Failed);
    match no_executor_error(JobType::MetadataIndexing) {
        JobError::Config(m) => assert_eq!(m, "No executor for MetadataIndexing"),
        other => panic!("unexpected {:?}", other),
    }
}

#[test]
fn job_error_classification_and_text() {
    assert!(JobError::Transient("t".into()).is_retryable());
    assert!(JobError::Io(std::io::Error::new(std::io::ErrorKind::Other, "disk")).is_retryable());
    assert!(!JobError::Storage("s".into()).is_retryable());
    assert!(!JobError::Config("c".into()).is_retryable());
    assert!(!JobError::Permanent("p".into()).is_retryable());
    assert_eq!(JobError::Transient("t".into()).message(), "Transient error: t (retryable)");
    assert_eq!(JobError::Storage("s".into()).message(), "Storage error: s");
    assert_eq!(QueueError::Full.message(), "Queue full");
    assert_eq!(QueueError::NotFound("#3".into()).message(), "Job not found: #3");
}

#[test]
fn payload_read_after_write() {
    let mut p = JobPayload::new();
    p.set("a", "1");
    p.set("b", "2");
    p.set("a", "3");
    assert_eq!(p.get_str("a"), Some("3".to_string()));
    assert_eq!(p.get_str("b"), Some("2".to_string()));
    assert_eq!(p.get_str("c"), None);
    assert_eq!(p.fields.len(), 2);
}

#[test]
fn failed_job_comes_back_only_when_retryable() {
    let outcomes: Vec<(Result<(), JobError>, bool)> = vec![
        (Err(JobError::Transient("busy".into())), true),
        (Err(JobError::Permanent("gone".into())), false),
        (Err(JobError::Config("bad".into())), false),
        (Ok(()), false),
    ];
    for (result, comes_back) in outcomes {
        let mut queue = InMemoryQueue::new(5);
        let mut job = test_job();
        job.metadata.attempt_count = 2;
        job.status = status_after(&result);
        schedule_next_retry(&mut job, 10, 1000);
        assert_eq!(job.metadata.next_retry_at, Some(1040));
        assert_eq!(job.metadata.attempt_count, 3);
        queue.push(job).unwrap();
        assert!(queue.peek_retryable_at(1039).is_empty());
        assert_eq!(queue.peek_retryable_at(1040).len(), usize::from(comes_back));
    }
}
