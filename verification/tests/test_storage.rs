use rftps::storage::traits::{check_capability, unsupported_error, Capability, StorageError};

#[test]
fn test_connection_error_is_retryable() {
    assert!(StorageError::Connection("timeout".into()).is_retryable());
}

#[test]
fn test_transfer_error_is_retryable() {
    assert!(StorageError::Transfer("reset".into()).is_retryable());
}

#[test]
fn test_io_error_is_retryable() {
    let err = StorageError::Io(std::io::Error::new(std::io::ErrorKind::BrokenPipe, "pipe"));
    assert!(err.is_retryable());
}

#[test]
fn test_auth_error_not_retryable() {
    assert!(!StorageError::Auth("bad creds".into()).is_retryable());
}

#[test]
fn test_not_found_not_retryable() {
    assert!(!StorageError::NotFound("gone".into()).is_retryable());
}

#[test]
fn test_config_error_not_retryable() {
    assert!(!StorageError::Config("bad host".into()).is_retryable());
}

#[test]
fn permission_denied_not_retryable() {
    assert!(!StorageError::PermissionDenied("no".into()).is_retryable());
}

#[test]
fn storage_messages() {
    assert_eq!(StorageError::Connection("timeout".into()).message(), "Connection failed: timeout");
    assert_eq!(StorageError::Auth("x".into()).message(), "Authentication failed: x");
    assert_eq!(StorageError::Transfer("x".into()).message(), "Transfer failed: x");
    assert_eq!(StorageError::NotFound("x".into()).message(), "Not found: x");
    assert_eq!(StorageError::PermissionDenied("x".into()).message(), "Permission denied: x");
    assert_eq!(StorageError::Config("x".into()).message(), "Configuration error: x");
    let io = StorageError::Io(std::io::Error::new(std::io::ErrorKind::BrokenPipe, "pipe"));
    assert_eq!(io.message(), "IO error: pipe");
}

#[test]
fn capability_check_decides() {
    assert!(check_capability(Capability::Rename, "ftp", Some(true)).is_ok());
    match check_capability(Capability::Mkdir, "s3", Some(false)) {
        Err(StorageError::Config(m)) => assert_eq!(m, "mkdir not supported by backend 's3'"),
        other => panic!("unexpected {:?}", other),
    }
    match check_capability(Capability::Rename, "mock", None) {
        Err(StorageError::Config(m)) => assert_eq!(m, "rename not supported by backend 'mock'"),
        other => panic!("unexpected {:?}", other),
    }
    match unsupported_error(Capability::Rename, "x") {
        StorageError::Config(m) => assert!(m.contains("not supported")),
        other => panic!("unexpected {:?}", other),
    }
}
