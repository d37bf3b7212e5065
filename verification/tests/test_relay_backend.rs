use rftps::background::config::BackendConfig;
use rftps::background::relay::{parse_fetch_payload, BackendReply, CredentialsReply, FetchReply, RelayError};

fn no_flat() -> CredentialsReply {
    CredentialsReply { protocol: None, host: None, port: None, user: None, password: None, root: None, ca_cert: None }
}

fn backend(kind: &str) -> BackendReply {
    BackendReply {
        kind: Some(kind.into()),
        host: None,
        port: None,
        user: None,
        password: None,
        root: None,
        ca_cert: None,
        endpoint: None,
        region: None,
        bucket: None,
        path_style: None,
        access_key_id: None,
        secret_access_key: None,
        session_token: None,
    }
}

fn versioned(version: Option<u64>, b: BackendReply) -> FetchReply {
    FetchReply { version, backend: Some(b), flat: no_flat() }
}

fn s3_basics() -> BackendReply {
    BackendReply {
        endpoint: Some("https://minio.local:9000".into()),
        bucket: Some("photos".into()),
        access_key_id: Some("AKID".into()),
        secret_access_key: Some("SAK".into()),
        ..backend("s3")
    }
}

fn config_message(r: Result<rftps::background::config::VersionedBackendConfig, RelayError>) -> String {
    match r {
        Err(RelayError::Config(m)) => m,
        _ => panic!("expected a configuration error"),
    }
}

#[test]
fn parses_legacy_flat_ftp_payload() {
    let resp = FetchReply {
        version: None,
        backend: None,
        flat: CredentialsReply {
            protocol: Some("ftps".into()),
            host: Some("ftp.example.com".into()),
            port: Some(990),
            user: Some("alice".into()),
            password: Some("secret".into()),
            root: Some("/photos".into()),
            ca_cert: Some("PEM".into()),
        },
    };
    let config = parse_fetch_payload(&resp).unwrap();
    assert_eq!(config.version, 1);
    match config.backend {
        BackendConfig::Ftps(f) => {
            assert_eq!(f.host, "ftp.example.com");
            assert_eq!(f.port, Some(990));
            assert_eq!(f.username, "alice");
            assert_eq!(f.path_prefix, "/photos");
            assert!(f.use_ssl);
            assert_eq!(f.ca_cert_pem.as_deref(), Some("PEM"));
        }
        _ => panic!("expected FTPS"),
    }
}

#[test]
fn parses_versioned_ftps_payload() {
    let resp = versioned(
        Some(1),
        BackendReply {
            host: Some("ftp.example.com".into()),
            port: Some(21),
            user: Some("bob".into()),
            password: Some("pw".into()),
            root: None,
            ca_cert: None,
            ..backend("ftps")
        },
    );
    let config = parse_fetch_payload(&resp).unwrap();
    match config.backend {
        BackendConfig::Ftps(f) => {
            assert_eq!(f.host, "ftp.example.com");
            assert_eq!(f.port, Some(21));
            assert_eq!(f.username, "bob");
            assert_eq!(f.path_prefix, "");
            assert!(f.use_ssl);
            assert_eq!(f.ca_cert_pem, None);
        }
        _ => panic!("expected FTPS"),
    }
}

#[test]
fn parses_versioned_s3_payload() {
    let resp = versioned(
        Some(1),
        BackendReply {
            region: Some("us-east-1".into()),
            path_style: Some(true),
            session_token: None,
            root: Some("camera-a".into()),
            ca_cert: Some("PEM".into()),
            ..s3_basics()
        },
    );
    let config = parse_fetch_payload(&resp).unwrap();
    match config.backend {
        BackendConfig::S3(s) => {
            assert_eq!(s.endpoint, "https://minio.local:9000");
            assert_eq!(s.region.as_deref(), Some("us-east-1"));
            assert_eq!(s.bucket, "photos");
            assert!(s.path_style);
            assert_eq!(s.access_key_id, "AKID");
            assert_eq!(s.secret_access_key, "SAK");
            assert_eq!(s.path_prefix, "camera-a");
            assert_eq!(s.ca_cert_pem.as_deref(), Some("PEM"));
            assert_eq!(s.multipart_threshold_bytes, None);
        }
        _ => panic!("expected S3"),
    }
}

#[test]
fn s3_path_style_defaults_true() {
    let resp = versioned(Some(1), s3_basics());
    match parse_fetch_payload(&resp).unwrap().backend {
        BackendConfig::S3(s) => assert!(s.path_style),
        _ => panic!("expected S3"),
    }
}

#[test]
fn rejects_missing_s3_endpoint() {
    let resp = versioned(Some(1), BackendReply { endpoint: None, ..s3_basics() });
    assert!(matches!(parse_fetch_payload(&resp), Err(RelayError::Config(_))));
}

#[test]
fn rejects_unknown_backend_type() {
    let resp = versioned(Some(1), backend("sftp"));
    assert!(matches!(parse_fetch_payload(&resp), Err(RelayError::Config(_))));
}

#[test]
fn rejects_future_version() {
    let resp = versioned(
        Some(99),
        BackendReply { host: Some("h".into()), user: Some("u".into()), ..backend("ftps") },
    );
    assert!(matches!(parse_fetch_payload(&resp), Err(RelayError::Config(_))));
}

#[test]
fn relay_payload_refusal_messages() {
    assert_eq!(
        config_message(parse_fetch_payload(&versioned(Some(99), backend("ftps")))),
        "backend config version 99 is newer than supported version 1"
    );
    assert_eq!(
        config_message(parse_fetch_payload(&versioned(Some(0), backend("ftps")))),
        "backend config version must be at least 1"
    );
    assert_eq!(
        config_message(parse_fetch_payload(&versioned(Some(1), backend("sftp")))),
        "unsupported backend type: sftp"
    );
    assert_eq!(
        config_message(parse_fetch_payload(&versioned(Some(1), BackendReply { kind: None, ..backend("ftps") }))),
        "backend type is missing"
    );
    assert_eq!(
        config_message(parse_fetch_payload(&versioned(Some(1), BackendReply { endpoint: None, ..s3_basics() }))),
        "s3 backend requires an endpoint"
    );
}

#[test]
fn relay_payload_defaults() {
    // A versioned reply without a version is read as version 1.
    let config = parse_fetch_payload(&versioned(None, backend("ftps"))).unwrap();
    assert_eq!(config.version, 1);
    match config.backend {
        BackendConfig::Ftps(f) => {
            assert_eq!(f.host, "");
            assert_eq!(f.port, None);
            assert!(f.use_ssl);
            assert!(!f.danger_disable_cert_verify);
        }
        _ => panic!("expected FTPS"),
    }
    // Path-style addressing can be turned off; the flat shape without
    // `ftps` as its protocol is plain FTP, and a wide port keeps its low bits.
    match parse_fetch_payload(&versioned(Some(1), BackendReply { path_style: Some(false), ..s3_basics() }))
        .unwrap()
        .backend
    {
        BackendConfig::S3(s) => {
            assert!(!s.path_style);
            assert!(!s.immutable_naming);
            assert_eq!(s.region, None);
        }
        _ => panic!("expected S3"),
    }
    let flat = FetchReply {
        version: Some(7),
        backend: None,
        flat: CredentialsReply { protocol: Some("ftp".into()), port: Some(65536 + 21), ..no_flat() },
    };
    let config = parse_fetch_payload(&flat).unwrap();
    assert_eq!(config.version, 1);
    match config.backend {
        BackendConfig::Ftps(f) => {
            assert!(!f.use_ssl);
            assert_eq!(f.port, Some(21));
        }
        _ => panic!("expected FTPS"),
    }
}
