use rftps::background::replication::{
    matches_upload, pick_newest, relative_key, FileEntry, REPLICATION_MAX_RETRIES,
};
use rftps::background::{ReplicationExecutor, ReplicationHandler};
use rftps::event::FtpEvent;
use rftps::job::{Job, JobError, JobPayload, JobStatus, JobType};
use rftps::storage::traits::StorageError;

fn entry(path: &str, relative: &str, modified: Option<u128>) -> FileEntry {
    FileEntry { path: path.into(), relative: relative.into(), modified }
}

fn payload(fields: &[(&str, &str)]) -> JobPayload {
    let mut p = JobPayload::new();
    for (k, v) in fields {
        p.set(k, v);
    }
    p
}

#[test]
fn test_handler_interested_in_upload() {
    let handler = ReplicationHandler::new("/home/test".into());
    let event = FtpEvent::FileUploaded {
        username: "alice".into(),
        path: "/photos/pic.jpg".into(),
        timestamp: 0,
    };
    assert!(handler.interested_in(&event));
}

#[test]
fn test_handler_not_interested_in_download() {
    let handler = ReplicationHandler::new("/home/test".into());
    let event = FtpEvent::FileDownloaded {
        username: "alice".into(),
        path: "/photos/pic.jpg".into(),
    };
    assert!(!handler.interested_in(&event));
}

#[test]
fn test_handler_creates_replication_job() {
    let handler = ReplicationHandler::new("/home/test".into());
    let key = ReplicationHandler::upload_key("/photos/pic.jpg");
    let direct = format!("{}/{}", handler.home(), key);
    let (source, dest) = ReplicationHandler::resolve_upload(&key, &direct, false, &vec![]);
    let job = ReplicationHandler::make_job("alice", &source, &dest);
    assert_eq!(job.job_type, JobType::Replication);
    assert_eq!(job.status, JobStatus::Pending);
    assert_eq!(job.payload.get_str("username").as_deref(), Some("alice"));
    assert_eq!(job.payload.get_str("dest_path").as_deref(), Some("photos/pic.jpg"));
    assert!(job.payload.get_str("source_path").unwrap().contains("photos/pic.jpg"));
    assert_eq!(job.metadata.max_retries, REPLICATION_MAX_RETRIES);
    assert_eq!(job.metadata.attempt_count, 0);
}

#[test]
fn test_executor_uploads_file() {
    let executor = ReplicationExecutor::new(true);
    assert_eq!(executor.name(), "replication");
    let job = Job::new(
        JobType::Replication,
        payload(&[("source_path", "/tmp/test.txt"), ("dest_path", "backup/test.txt"), ("username", "alice")]),
        3,
    );
    let (source, dest) = ReplicationExecutor::read_paths(&job).unwrap();
    assert_eq!(source, "/tmp/test.txt");
    assert_eq!(dest, "backup/test.txt");
    assert!(ReplicationExecutor::upload_outcome(Ok(())).is_ok());
}

#[test]
fn test_executor_fails_on_missing_source() {
    match ReplicationExecutor::missing_source("/nonexistent/file.txt") {
        JobError::Permanent(msg) => {
            assert!(msg.contains("not found"));
            assert_eq!(msg, "Source file not found: /nonexistent/file.txt");
        }
        other => panic!("Expected Permanent error, got: {:?}", other),
    }
}

#[test]
fn test_executor_storage_error_is_retryable() {
    let result = ReplicationExecutor::upload_outcome(Err(StorageError::Connection("mock failure".into())));
    assert!(result.is_err());
    let err = result.unwrap_err();
    assert!(err.is_retryable());
    match err {
        JobError::Transient(m) => assert_eq!(m, "Connection failed: mock failure"),
        other => panic!("Expected Transient error, got: {:?}", other),
    }
    match ReplicationExecutor::upload_outcome(Err(StorageError::Auth("bad".into()))) {
        Err(JobError::Storage(m)) => assert_eq!(m, "Authentication failed: bad"),
        other => panic!("Expected Storage error, got: {:?}", other),
    }
}

#[test]
fn test_executor_missing_payload_field() {
    let job = Job::new(JobType::Replication, payload(&[("username", "alice")]), 3);
    match ReplicationExecutor::read_paths(&job) {
        Err(JobError::Config(msg)) => {
            assert!(msg.contains("Missing"));
            assert_eq!(msg, "Missing source_path in payload");
        }
        other => panic!("Expected Config error, got: {:?}", other),
    }
    let job = Job::new(JobType::Replication, payload(&[("source_path", "/a")]), 3);
    match ReplicationExecutor::read_paths(&job) {
        Err(JobError::Config(msg)) => assert_eq!(msg, "Missing dest_path in payload"),
        other => panic!("Expected Config error, got: {:?}", other),
    }
}

#[test]
fn upload_keys() {
    assert_eq!(ReplicationHandler::upload_key("/photos/pic.jpg"), "photos/pic.jpg");
    assert_eq!(ReplicationHandler::upload_key("\\\\/a\\b.txt"), "a/b.txt");
    assert_eq!(ReplicationHandler::upload_key("plain"), "plain");
    assert_eq!(ReplicationHandler::upload_key("///"), "");
    let once = ReplicationHandler::upload_key("/x\\y");
    assert_eq!(ReplicationHandler::upload_key(&once), once);
}

#[test]
fn upload_matching() {
    assert!(matches_upload("photos/pic.jpg", "photos/pic.jpg"));
    assert!(matches_upload("2024/photos/pic.jpg", "photos/pic.jpg"));
    assert!(!matches_upload("myphotos/pic.jpg", "photos/pic.jpg"));
    assert!(!matches_upload("pic.jpg", "photos/pic.jpg"));
}

#[test]
fn newest_pick() {
    assert_eq!(pick_newest(&vec![]), None);
    assert_eq!(pick_newest(&vec![None]), Some(0));
    assert_eq!(pick_newest(&vec![Some(5), Some(9), Some(9), Some(1)]), Some(1));
    assert_eq!(pick_newest(&vec![None, None]), Some(0));
    assert_eq!(pick_newest(&vec![None, Some(0)]), Some(0));
    assert_eq!(pick_newest(&vec![None, Some(1)]), Some(1));
}

#[test]
fn upload_resolution() {
    let files = vec![
        entry("/h/a/pic.jpg", "a/pic.jpg", Some(10)),
        entry("/h/other.jpg", "other.jpg", Some(99)),
        entry("/h/b/pic.jpg", "b/pic.jpg", Some(20)),
    ];
    assert_eq!(
        ReplicationHandler::resolve_upload("pic.jpg", "/h/pic.jpg", false, &files),
        ("/h/b/pic.jpg".to_string(), "b/pic.jpg".to_string())
    );
    assert_eq!(
        ReplicationHandler::resolve_upload("pic.jpg", "/h/pic.jpg", true, &files),
        ("/h/pic.jpg".to_string(), "pic.jpg".to_string())
    );
    assert_eq!(
        ReplicationHandler::resolve_upload("none.jpg", "/h/none.jpg", false, &files),
        ("/h/none.jpg".to_string(), "none.jpg".to_string())
    );
}

#[test]
fn replication_events() {
    match ReplicationExecutor::replication_event(false, "a/b", Some("boom")) {
        FtpEvent::Replication { path, ok, error } => {
            assert_eq!(path, "a/b");
            assert!(!ok);
            assert_eq!(error.as_deref(), Some("boom"));
        }
        _ => panic!("expected a replication event"),
    }
    let e = ReplicationExecutor::replication_event(true, "a/b", None);
    assert_eq!(e.event_name(), "replication");
}

#[test]
fn direct_paths_and_relative_keys() {
    let handler = ReplicationHandler::new("/home/test".into());
    assert_eq!(handler.direct_path("photos/pic.jpg"), "/home/test/photos/pic.jpg");
    assert_eq!(relative_key("a\\b\\c.txt"), "a/b/c.txt");
    assert_eq!(relative_key("/x/y"), "/x/y");
}
