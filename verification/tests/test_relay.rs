use ed25519_dalek::{Signature, SigningKey, Verifier, VerifyingKey};
use rftps::background::config::{RelayConfig, StorageBackendType};
use rftps::background::relay::{
    generate_device_key, ApprovalPoll, CredentialsReply, RelayClient, RelayError,
};
use rftps::storage::traits::StorageError;
use rftps::background::relay::{credentials_advance, credentials_start, relay_status_event, CredentialStage};
use rftps::event::FtpEvent;
use rftps::background::relay::{parse_fetch_payload, CredentialCache, CredentialsBegin, FetchReply};
use rftps::background::config::{BackendConfig, VersionedBackendConfig};

fn cfg(url: &str, key: &str) -> RelayConfig {
    RelayConfig {
        url: url.into(),
        device_key: key.into(),
        device_name: "test".into(),
        approval_timeout_secs: 1,
        ca_cert: None,
        danger_disable_cert_verify: false,
        relay_messages: true,
    }
}

fn expected_public_key(seed_hex: &str) -> String {
    let seed = hex::decode(seed_hex).unwrap();
    let mut bytes = [0u8; 32];
    bytes.copy_from_slice(&seed);
    hex::encode(SigningKey::from_bytes(&bytes).verifying_key().to_bytes())
}

#[test]
fn relay_error_mapping_retryable() {
    assert!(RelayError::PendingApproval.to_storage().is_retryable());
    assert!(RelayError::Http("boom".into()).to_storage().is_retryable());
    assert!(RelayError::Api { code: 500, message: "x".into() }
        .to_storage()
        .is_retryable());
}

#[test]
fn relay_error_mapping_permanent() {
    assert!(!RelayError::Deauthorized.to_storage().is_retryable());
    assert!(!RelayError::Config("bad".into()).to_storage().is_retryable());
}

#[test]
fn test_relay_backend_error_mapping_retryable() {
    assert!(RelayError::PendingApproval.to_storage().is_retryable());
    assert!(RelayError::Http("boom".into()).to_storage().is_retryable());
    assert!(RelayError::Api { code: 500, message: "x".into() }
        .to_storage()
        .is_retryable());
}

#[test]
fn test_relay_backend_error_mapping_permanent() {
    assert!(!RelayError::Deauthorized.to_storage().is_retryable());
    assert!(!RelayError::Config("bad".into()).to_storage().is_retryable());
}

#[test]
fn relay_rejects_empty_url() {
    assert!(matches!(
        RelayClient::new(&cfg("", &"00".repeat(32))),
        Err(RelayError::Config(_))
    ));
}

#[test]
fn relay_rejects_non_hex_key() {
    assert!(matches!(
        RelayClient::new(&cfg("http://x", "zzzz")),
        Err(RelayError::Config(_))
    ));
}

#[test]
fn relay_rejects_short_key() {
    assert!(matches!(
        RelayClient::new(&cfg("http://x", "aa")),
        Err(RelayError::Config(_))
    ));
}

#[test]
fn relay_derives_public_key_from_seed() {
    let client = RelayClient::new(&cfg("http://localhost:8700", &"ab".repeat(32))).unwrap();
    assert_eq!(client.public_key().len(), 64);
    assert_eq!(client.public_key(), expected_public_key(&"ab".repeat(32)));
}

#[test]
fn test_relay_backend_rejects_empty_url() {
    assert!(matches!(
        RelayClient::new(&cfg("", &"00".repeat(32))),
        Err(RelayError::Config(_))
    ));
}

#[test]
fn test_relay_backend_rejects_non_hex_key() {
    assert!(matches!(
        RelayClient::new(&cfg("http://x", "zzzz")),
        Err(RelayError::Config(_))
    ));
}

#[test]
fn test_relay_backend_rejects_short_key() {
    assert!(matches!(
        RelayClient::new(&cfg("http://x", "aa")),
        Err(RelayError::Config(_))
    ));
}

#[test]
fn test_relay_backend_derives_public_key_from_seed() {
    let client = RelayClient::new(&cfg("http://localhost:8700", &"ab".repeat(32))).unwrap();
    assert_eq!(client.public_key().len(), 64);
    assert_eq!(client.public_key(), expected_public_key(&"ab".repeat(32)));
}

#[test]
fn relay_settings_messages_and_identity() {
    match RelayClient::new(&cfg("///", &"00".repeat(32))) {
        Err(RelayError::Config(m)) => assert_eq!(m, "relay.url is empty"),
        _ => panic!("expected a configuration error"),
    }
    match RelayClient::new(&cfg("http://x", "zzzz")) {
        Err(RelayError::Config(m)) => assert_eq!(m, "relay.device_key must be hex"),
        _ => panic!("expected a configuration error"),
    }
    match RelayClient::new(&cfg("http://x", "abc")) {
        Err(RelayError::Config(m)) => assert_eq!(m, "relay.device_key must be hex"),
        _ => panic!("expected a configuration error"),
    }
    match RelayClient::new(&cfg("http://x", "aa")) {
        Err(RelayError::Config(m)) => assert_eq!(m, "relay.device_key must be exactly 32 bytes"),
        _ => panic!("expected a configuration error"),
    }
    let key = format!("  {}\n", "AB".repeat(32));
    let client = RelayClient::new(&cfg("https://relay.example.com//", &key)).unwrap();
    assert_eq!(client.base(), "https://relay.example.com");
    assert_eq!(client.device_name(), "test");
    assert_eq!(client.approval_timeout(), 1);
    assert_eq!(client.public_key(), expected_public_key(&"ab".repeat(32)));
}

#[test]
fn relay_signature_verifies() {
    let client = RelayClient::new(&cfg("http://x", &"07".repeat(32))).unwrap();
    let message = client.challenge_message("n0nce", 1700000000);
    assert_eq!(message, format!("n0nce{}1700000000", client.public_key()));
    let signature_hex = client.sign(&message);
    assert_eq!(signature_hex.len(), 128);
    let pk: [u8; 32] = hex::decode(client.public_key()).unwrap().try_into().unwrap();
    let sig: [u8; 64] = hex::decode(&signature_hex).unwrap().try_into().unwrap();
    let verifying = VerifyingKey::from_bytes(&pk).unwrap();
    assert!(verifying.verify(message.as_bytes(), &Signature::from_bytes(&sig)).is_ok());
    assert_eq!(client.sign(&message), signature_hex);
}

#[test]
fn relay_generated_key_is_accepted() {
    let key = generate_device_key();
    assert_eq!(key.len(), 64);
    assert!(key.chars().all(|c| c.is_ascii_hexdigit() && !c.is_ascii_uppercase()));
    assert!(RelayClient::new(&cfg("http://x", &key)).is_ok());
}

#[test]
fn relay_error_messages() {
    assert_eq!(RelayError::Http("boom".into()).message(), "HTTP error: boom");
    assert_eq!(
        RelayError::Api { code: 404, message: "nope".into() }.message(),
        "Relay API error (404): nope"
    );
    assert_eq!(RelayError::PendingApproval.message(), "device not approved yet");
    assert_eq!(RelayError::Deauthorized.message(), "device deauthorized");
    assert_eq!(RelayError::Config("bad".into()).message(), "configuration error: bad");
    match RelayError::PendingApproval.to_storage() {
        StorageError::Connection(m) => assert_eq!(m, "device not approved by relay yet"),
        _ => panic!("expected a connection error"),
    }
    match RelayError::Deauthorized.to_storage() {
        StorageError::PermissionDenied(m) => assert_eq!(m, "device deauthorized by relay"),
        _ => panic!("expected a permission error"),
    }
    match RelayError::Config("bad".into()).to_storage() {
        StorageError::Config(m) => assert_eq!(m, "configuration error: bad"),
        _ => panic!("expected a configuration error"),
    }
}

#[test]
fn relay_reply_reading() {
    assert_eq!(RelayClient::approval_poll(Some("approved")), ApprovalPoll::Approved);
    assert_eq!(RelayClient::approval_poll(Some("deauthorized")), ApprovalPoll::Deauthorized);
    assert_eq!(RelayClient::approval_poll(Some("pending")), ApprovalPoll::Waiting);
    assert_eq!(RelayClient::approval_poll(None), ApprovalPoll::Waiting);
    match RelayClient::api_error(403, Some("denied".into()), "{}".into()) {
        RelayError::Api { code, message } => {
            assert_eq!(code, 403);
            assert_eq!(message, "denied");
        }
        _ => panic!("expected an API error"),
    }
    match RelayClient::api_error(500, None, "oops".into()) {
        RelayError::Api { message, .. } => assert_eq!(message, "oops"),
        _ => panic!("expected an API error"),
    }
}

#[test]
fn relay_credentials_reply() {
    let reply = CredentialsReply {
        protocol: Some("ftps".into()),
        host: Some("ftp.example.com".into()),
        port: Some(990),
        user: Some("alice".into()),
        password: Some("secret".into()),
        root: Some("/photos".into()),
        ca_cert: Some("PEM".into()),
    };
    let c = RelayClient::credentials_from_reply(&reply);
    assert!(c.backend == StorageBackendType::Ftps);
    assert_eq!(c.host, "ftp.example.com");
    assert_eq!(c.port, Some(990));
    assert_eq!(c.username, "alice");
    assert_eq!(c.password, "secret");
    assert_eq!(c.path_prefix, "/photos");
    assert!(c.use_ssl);
    assert_eq!(c.ca_cert, None);
    assert_eq!(c.ca_cert_pem.as_deref(), Some("PEM"));
    assert!(!c.danger_disable_cert_verify);

    let bare = CredentialsReply {
        protocol: Some("ftp".into()),
        host: None,
        port: Some(65536 + 21),
        user: None,
        password: None,
        root: None,
        ca_cert: None,
    };
    let c = RelayClient::credentials_from_reply(&bare);
    assert!(!c.use_ssl);
    assert_eq!(c.host, "");
    assert_eq!(c.port, Some(21));
    assert_eq!(c.ca_cert_pem, None);
}

#[test]
fn relay_paths_and_replies() {
    let client = RelayClient::new(&cfg("http://r/", &"01".repeat(32))).unwrap();
    assert_eq!(client.endpoint("/api/x"), "http://r/api/x");
    assert_eq!(client.status_path(), format!("/api/devices/status?public_key={}", client.public_key()));
    assert!(RelayClient::check_reply(204, None, String::new()).is_ok());
    match RelayClient::check_reply(404, None, "missing".into()) {
        Err(RelayError::Api { code, message }) => {
            assert_eq!(code, 404);
            assert_eq!(message, "missing");
        }
        _ => panic!("expected an API error"),
    }
    assert!(matches!(RelayClient::check_reply(199, Some("d".into()), "b".into()), Err(RelayError::Api { .. })));
    assert!(matches!(RelayClient::approval_outcome(ApprovalPoll::Approved), Some(Ok(()))));
    assert!(matches!(RelayClient::approval_outcome(ApprovalPoll::Deauthorized), Some(Err(RelayError::Deauthorized))));
    assert!(RelayClient::approval_outcome(ApprovalPoll::Waiting).is_none());
    assert_eq!(RelayClient::challenge_from_reply(Some("n".into())).unwrap(), "n");
    match RelayClient::challenge_from_reply(None) {
        Err(RelayError::Http(m)) => assert_eq!(m, "missing challenge in response"),
        _ => panic!("expected an HTTP error"),
    }
    match RelayClient::token_from_reply(None) {
        Err(RelayError::Http(m)) => assert_eq!(m, "missing session_token in response"),
        _ => panic!("expected an HTTP error"),
    }
    assert!(matches!(relay_status_event("pending", Some("waiting")),
        FtpEvent::RelayStatus { ref status, ref message } if status == "pending" && message.as_deref() == Some("waiting")));

    let (mut stage, first) = credentials_start();
    assert!(matches!(first, FtpEvent::RelayStatus { ref status, .. } if status == "registering"));
    let mut statuses = Vec::new();
    while stage != CredentialStage::Armed {
        let step = credentials_advance(stage, None);
        if let Some(FtpEvent::RelayStatus { status, .. }) = step.event {
            statuses.push(status);
        }
        assert!(step.error.is_none());
        stage = step.next;
    }
    assert_eq!(statuses, vec!["registered", "approved", "active"]);
    let step = credentials_advance(CredentialStage::AwaitApproval, Some(RelayError::PendingApproval));
    assert_eq!(step.next, CredentialStage::Failed);
    assert!(step.event.is_none());
    assert!(step.error.unwrap().is_retryable());
    let step = credentials_advance(CredentialStage::Register, Some(RelayError::Deauthorized));
    assert!(!step.error.unwrap().is_retryable());
}

#[test]
fn relay_credentials_are_kept() {
    let mut cache = CredentialCache::new();
    match cache.begin() {
        CredentialsBegin::Steps(stage, event) => {
            assert_eq!(stage, CredentialStage::Register);
            assert!(matches!(event, FtpEvent::RelayStatus { ref status, .. } if status == "registering"));
        }
        CredentialsBegin::Cached(_) => panic!("nothing is kept yet"),
    }
    cache.finish(CredentialStage::Failed, Some(fetched(reply_with_host("ftp.example.com"))));
    assert!(matches!(cache.begin(), CredentialsBegin::Steps(..)));
    cache.finish(CredentialStage::Armed, Some(fetched(reply_with_host("ftp.example.com"))));
    match cache.begin() {
        CredentialsBegin::Cached(c) => match c.backend {
            BackendConfig::Ftps(f) => {
                assert_eq!(f.host, "ftp.example.com");
                assert_eq!(f.username, "alice");
            }
            BackendConfig::S3(_) => panic!("expected FTPS"),
        },
        CredentialsBegin::Steps(..) => panic!("credentials should be kept"),
    }
    cache.finish(CredentialStage::Armed, Some(fetched(reply_with_host("other"))));
    match cache.begin() {
        CredentialsBegin::Cached(c) => match c.backend {
            BackendConfig::Ftps(f) => assert_eq!(f.host, "ftp.example.com"),
            BackendConfig::S3(_) => panic!("expected FTPS"),
        },
        CredentialsBegin::Steps(..) => panic!("credentials should be kept"),
    }
}

fn reply_with_host(host: &str) -> CredentialsReply {
    CredentialsReply {
        protocol: Some("ftps".into()),
        host: Some(host.into()),
        port: Some(990),
        user: Some("alice".into()),
        password: Some("secret".into()),
        root: None,
        ca_cert: None,
    }
}

fn fetched(flat: CredentialsReply) -> VersionedBackendConfig {
    parse_fetch_payload(&FetchReply { version: None, backend: None, flat }).unwrap()
}
