use rftps::background::config::{BackendConfig, S3Config};
use rftps::storage::factory::StorageBackendFactory;
use rftps::storage::s3::{
    plan_part_size, PartUploads, S3Backend, SdkFailure, DEFAULT_MULTIPART_THRESHOLD, MAX_PART_COUNT, MIN_PART_SIZE,
};
use rftps::storage::traits::{check_capability, Capability, StorageError};
use rftps::storage::traits::StorageBackend;

fn s3_config() -> S3Config {
    S3Config {
        endpoint: "https://minio.local".into(),
        region: Some("us-east-1".into()),
        bucket: "photos".into(),
        path_style: true,
        access_key_id: "k".into(),
        secret_access_key: "s".into(),
        session_token: None,
        path_prefix: "".into(),
        ca_cert_pem: None,
        multipart_threshold_bytes: None,
        immutable_naming: false,
    }
}

fn backend() -> S3Backend {
    S3Backend::new(s3_config())
}

#[test]
fn object_key_trims_leading_slash() {
    let b = backend();
    assert_eq!(b.object_key("/alice/pic.jpg"), "alice/pic.jpg");
    assert_eq!(b.object_key("alice/pic.jpg"), "alice/pic.jpg");
}

#[test]
fn object_key_applies_path_prefix() {
    let b = S3Backend::new(S3Config {
        path_prefix: "backups/".into(),
        ..s3_config()
    });
    assert_eq!(b.object_key("alice/pic.jpg"), "backups/alice/pic.jpg");
    assert_eq!(b.object_key("/alice/pic.jpg"), "backups/alice/pic.jpg");
}

#[test]
fn copy_source_encodes_key_but_keeps_separators() {
    let b = backend();
    assert_eq!(
        b.copy_source("alice/photo (1).jpg"),
        "photos/alice/photo%20%281%29.jpg"
    );
    assert_eq!(b.copy_source("alice/a-b_c.d"), "photos/alice/a-b_c.d");
}

#[test]
fn name_and_capabilities() {
    let b = backend();
    assert_eq!(b.name(), "s3");
    assert!(b.supports(Capability::Rename));
    assert!(!b.supports(Capability::Mkdir));
}

#[test]
fn plan_part_size_floors_at_min_part_size() {
    assert_eq!(plan_part_size(10 * 1024 * 1024), MIN_PART_SIZE);
    assert_eq!(plan_part_size(MIN_PART_SIZE), MIN_PART_SIZE);
}

#[test]
fn plan_part_size_grows_to_cap_part_count() {
    let size = 100 * 1024 * 1024 * 1024u64;
    let part_size = plan_part_size(size);
    assert!(part_size >= MIN_PART_SIZE);
    assert!(size.div_ceil(part_size) <= MAX_PART_COUNT);
}

#[test]
fn multipart_threshold_uses_config_when_set() {
    let b = S3Backend::new(S3Config {
        multipart_threshold_bytes: Some(1024),
        ..s3_config()
    });
    assert_eq!(b.multipart_threshold(), 1024);
}

#[test]
fn s3_declares_rename_but_not_mkdir() {
    let backend = StorageBackendFactory::build(&BackendConfig::S3(s3_config())).unwrap();
    let caps = backend.capabilities().unwrap();
    assert!(caps.supports(Capability::Rename));
    assert!(!caps.supports(Capability::Mkdir));
}

#[test]
fn mkdir_on_declines_for_s3() {
    let b = backend();
    let err = check_capability(Capability::Mkdir, b.name(), Some(b.supports(Capability::Mkdir)))
        .unwrap_err();
    assert!(err.message().contains("not supported"));
    assert!(check_capability(Capability::Rename, b.name(), Some(b.supports(Capability::Rename))).is_ok());
}

#[test]
fn part_sizes_exact() {
    assert_eq!(plan_part_size(0), MIN_PART_SIZE);
    assert_eq!(plan_part_size(MIN_PART_SIZE * MAX_PART_COUNT), MIN_PART_SIZE);
    assert_eq!(plan_part_size(MIN_PART_SIZE * MAX_PART_COUNT + 1), MIN_PART_SIZE + 1);
    assert_eq!(plan_part_size(u64::MAX), u64::MAX / MAX_PART_COUNT + 1);
}

#[test]
fn default_multipart_threshold() {
    assert_eq!(backend().multipart_threshold(), DEFAULT_MULTIPART_THRESHOLD);
    assert_eq!(DEFAULT_MULTIPART_THRESHOLD, 8 * 1024 * 1024);
}

#[test]
fn prefix_with_many_trailing_slashes() {
    let b = S3Backend::new(S3Config {
        path_prefix: "a//".into(),
        ..s3_config()
    });
    assert_eq!(b.object_key("//x"), "a/x");
}

#[test]
fn copy_source_encodes_non_ascii_bytes() {
    assert_eq!(backend().copy_source("é+~"), "photos/%C3%A9%2B%7E");
}

#[test]
fn factory_builds_s3_backend() {
    let backend = StorageBackendFactory::build(&BackendConfig::S3(s3_config())).unwrap();
    assert_eq!(backend.name(), "s3");
}

#[test]
fn object_key_immutable_naming_prepends_uuid() {
    let b = S3Backend::new(S3Config {
        immutable_naming: true,
        ..s3_config()
    });
    let key1 = b.object_key("alice/pic.jpg");
    let key2 = b.object_key("alice/pic.jpg");

    // Keys should be different (UUID prepended)
    assert_ne!(key1, key2);

    // Keys should end with the original filename
    assert!(key1.ends_with("-pic.jpg"));
    assert!(key2.ends_with("-pic.jpg"));

    // Keys should preserve directory structure
    assert!(key1.starts_with("alice/"));
    assert!(key2.starts_with("alice/"));
}

#[test]
fn object_key_immutable_naming_with_prefix() {
    let b = S3Backend::new(S3Config {
        path_prefix: "backups".into(),
        immutable_naming: true,
        ..s3_config()
    });
    let key = b.object_key("alice/pic.jpg");

    // Key should start with prefix
    assert!(key.starts_with("backups/"));

    // Key should end with filename
    assert!(key.ends_with("-pic.jpg"));
}

#[test]
fn object_key_immutable_naming_root_file() {
    let b = S3Backend::new(S3Config {
        immutable_naming: true,
        ..s3_config()
    });
    let key = b.object_key("pic.jpg");

    // Key should end with filename
    assert!(key.ends_with("-pic.jpg"));

    // Key should not have directory prefix
    assert!(!key.contains('/'));
}

#[test]
fn immutable_key_shape() {
    let b = S3Backend::new(S3Config {
        path_prefix: "backups/".into(),
        immutable_naming: true,
        ..s3_config()
    });
    let key = b.object_key("/alice/photos/pic.jpg");
    assert!(key.starts_with("backups/alice/photos/"));
    let id = &key["backups/alice/photos/".len().."backups/alice/photos/".len() + 36];
    assert_eq!(&key["backups/alice/photos/".len() + 36..], "-pic.jpg");
    let chars: Vec<char> = id.chars().collect();
    for (i, c) in chars.iter().enumerate() {
        if i == 8 || i == 13 || i == 18 || i == 23 {
            assert_eq!(*c, '-');
        } else {
            assert!(c.is_ascii_hexdigit() && !c.is_ascii_uppercase());
        }
    }
    assert_eq!(chars[14], '4');
    assert!(matches!(chars[19], '8' | '9' | 'a' | 'b'));
}

#[test]
fn service_errors_are_classified() {
    match S3Backend::service_error(301, "PermanentRedirect", "moved", "PUT", "k") {
        StorageError::Config(m) => assert_eq!(m, "S3 PUT redirected for 'k': PermanentRedirect"),
        _ => panic!("expected a configuration error"),
    }
    match S3Backend::service_error(403, "AccessDenied", "no", "GET", "k") {
        StorageError::PermissionDenied(m) => assert_eq!(m, "S3 GET access denied for 'k': no"),
        _ => panic!("expected a permission error"),
    }
    match S3Backend::service_error(404, "NoSuchKey", "gone", "GET", "k") {
        StorageError::NotFound(m) => assert_eq!(m, "S3 GET not found 'k': gone"),
        _ => panic!("expected a not-found error"),
    }
    match S3Backend::service_error(400, "SignatureDoesNotMatch", "x", "PUT", "k") {
        StorageError::Auth(m) => assert_eq!(m, "S3 PUT authentication failed for 'k': SignatureDoesNotMatch"),
        _ => panic!("expected an authentication error"),
    }
    match S3Backend::service_error(503, "SlowDown", "busy", "PUT", "k") {
        StorageError::Transfer(m) => assert_eq!(m, "S3 PUT server error 503 for 'k': busy"),
        _ => panic!("expected a transfer error"),
    }
    // every status from 5 up that the earlier cases leave counts as a server error
    match S3Backend::service_error(400, "BadDigest", "bad", "PUT", "k") {
        StorageError::Transfer(m) => assert_eq!(m, "S3 PUT server error 400 for 'k': bad"),
        _ => panic!("expected a transfer error"),
    }
    match S3Backend::service_error(4, "Odd", "odd", "PUT", "k") {
        StorageError::Transfer(m) => assert_eq!(m, "S3 PUT failed for 'k' (Odd): odd"),
        _ => panic!("expected a transfer error"),
    }
}

#[test]
fn sdk_failures_are_classified() {
    match S3Backend::sdk_failure_error(SdkFailure::ConstructionFailure, "PUT", "k") {
        StorageError::Config(m) => assert_eq!(m, "S3 PUT request construction failed for 'k'"),
        _ => panic!("expected a configuration error"),
    }
    let e = S3Backend::sdk_failure_error(SdkFailure::TimeoutError, "PUT", "k");
    assert!(e.is_retryable());
    match S3Backend::sdk_failure_error(SdkFailure::DispatchFailure, "GET", "k") {
        StorageError::Connection(m) => assert_eq!(m, "S3 GET timed out for 'k'"),
        _ => panic!("expected a connection error"),
    }
    match S3Backend::sdk_failure_error(SdkFailure::ResponseError, "GET", "k") {
        StorageError::Transfer(m) => assert_eq!(m, "S3 GET malformed response for 'k'"),
        _ => panic!("expected a transfer error"),
    }
    match S3Backend::sdk_failure_error(SdkFailure::Other, "GET", "k") {
        StorageError::Transfer(m) => assert_eq!(m, "S3 GET unknown error for 'k'"),
        _ => panic!("expected a transfer error"),
    }
}

#[test]
fn multipart_choice_and_messages() {
    let b = S3Backend::new(S3Config { multipart_threshold_bytes: Some(100), ..s3_config() });
    assert!(!b.uses_multipart(100));
    assert!(b.uses_multipart(101));
    assert!(!backend().uses_multipart(DEFAULT_MULTIPART_THRESHOLD));
    match S3Backend::missing_etag_error(3, "k") {
        StorageError::Transfer(m) => assert_eq!(m, "S3 upload part 3 returned no etag for 'k'"),
        _ => panic!("expected a transfer error"),
    }
    match S3Backend::missing_upload_id_error("k") {
        StorageError::Transfer(m) => assert_eq!(m, "S3 create multipart upload returned no upload id for 'k'"),
        _ => panic!("expected a transfer error"),
    }
    match S3Backend::tls_context_error("bad pem") {
        StorageError::Config(m) => assert_eq!(m, "failed to build TLS context: bad pem"),
        _ => panic!("expected a configuration error"),
    }
    let b = backend();
    assert_eq!(StorageBackend::name(&b), "s3");
    assert_eq!(b.capabilities().map(|c| c.supports(Capability::Mkdir)), Some(false));
}

#[test]
fn multipart_parts_in_order() {
    let mut parts = PartUploads::new();
    assert_eq!(parts.after_read(5), Some(1));
    assert!(parts.record(Some("e1".into()), "k").is_ok());
    assert_eq!(parts.after_read(3), Some(2));
    assert!(parts.record(Some("e2".into()), "k").is_ok());
    assert_eq!(parts.after_read(4), Some(3));
    match parts.record(None, "photos/a.jpg") {
        Err(StorageError::Transfer(m)) => assert_eq!(m, "S3 upload part 3 returned no etag for 'photos/a.jpg'"),
        _ => panic!("expected a transfer error"),
    }
    assert_eq!(parts.after_read(0), None);
    assert_eq!(parts.completed(), vec![(1, "e1".to_string()), (2, "e2".to_string())]);
    assert!(PartUploads::new().completed().is_empty());
}
