//! The relay client's own logic: checking its settings, deriving the device
//! identity, building the signed challenge and reading the relay's replies.
//! `app/` holds the HTTP client and runs the requests.
use vstd::prelude::*;
use vstd::utf8::{encode_utf8, is_ascii_chars, is_ascii_chars_encode_utf8};
use ed25519_dalek::Signer;
use crate::background::config::{
    BackendConfig, FtpsConfig, RelayConfig, RemoteStorageConfig, S3Config, StorageBackendType, VersionedBackendConfig,
    BACKEND_CONFIG_VERSION,
};
use crate::storage::ftps::{trim_end_char, trim_end_matches_char};
use crate::event::types::FtpEvent;
use crate::storage::traits::StorageError;
use crate::text::{concat2, concat3, copy_opt_string, decimal, same_text, trim_end_ws, trim_start_ws, trim_whitespace, trim_ws, u64_to_decimal, white_space};

verus! {

/// `hex::FromHexError`, carried unopened.
#[verifier::external_type_specification]
#[verifier::external_body]
pub struct ExFromHexError(hex::FromHexError);

/// The value of a hexadecimal digit, or -1 for any other byte.
pub open spec fn hex_value(b: u8) -> int {
    if 48 <= b <= 57 {
        b - 48
    } else if 97 <= b <= 102 {
        b - 87
    } else if 65 <= b <= 70 {
        b - 55
    } else {
        -1
    }
}

/// An even number of hexadecimal digits.
pub open spec fn is_hex_text(b: Seq<u8>) -> bool {
    b.len() % 2 == 0 && forall|i: int| 0 <= i < b.len() ==> hex_value(#[trigger] b[i]) >= 0
}

/// The bytes that pairs of hexadecimal digits stand for, high digit first.
pub open spec fn hex_bytes(b: Seq<u8>) -> Seq<u8> {
    Seq::new(b.len() / 2, |i: int| (hex_value(b[2 * i]) * 16 + hex_value(b[2 * i + 1])) as u8)
}

/// The lower-case hexadecimal digit for `d < 16`.
pub open spec fn hex_digit_lower(d: int) -> char {
    if d < 10 {
        (d + 48) as char
    } else {
        (d + 87) as char
    }
}

/// Bytes as lower-case hexadecimal text, two digits per byte, high first.
pub open spec fn hex_lower(b: Seq<u8>) -> Seq<char> {
    Seq::new(
        2 * b.len(),
        |i: int| hex_digit_lower(if i % 2 == 0 { b[i / 2] / 16 } else { b[i / 2] % 16 } as int),
    )
}

/// Trusted: `hex::decode`. It accepts an even number of hexadecimal digits
/// of either case and gives the bytes they stand for, as its source shows.
#[verifier::external_body]
fn hex_decode(data: &[u8]) -> (r: Result<Vec<u8>, hex::FromHexError>)
    ensures
        r is Ok <==> is_hex_text(data@),
        r matches Ok(v) ==> v@ == hex_bytes(data@),
{
    hex::decode(data)
}

/// Trusted: `hex::encode`. It writes each byte as two lower-case digits,
/// high digit first, as its source shows.
#[verifier::external_body]
pub(crate) fn hex_encode(data: &[u8]) -> (s: String)
    ensures
        s@ == hex_lower(data@),
{
    hex::encode(data)
}

/// The Ed25519 public key that a 32-byte secret seed determines.
pub uninterp spec fn ed25519_public_key_of(seed: Seq<u8>) -> Seq<u8>;

/// The deterministic Ed25519 signature of a message under a 32-byte seed.
pub uninterp spec fn ed25519_signature_of(seed: Seq<u8>, message: Seq<u8>) -> Seq<u8>;

/// Trusted: `ed25519_dalek::SigningKey::from_bytes` then `verifying_key`
/// and `to_bytes`. The 32-byte key is named, not stated.
#[verifier::external_body]
fn ed25519_public_key(seed: &[u8]) -> (pk: Vec<u8>)
    requires
        seed@.len() == 32,
    ensures
        pk@ == ed25519_public_key_of(seed@),
        pk@.len() == 32,
{
    let mut bytes = [0u8; 32];
    bytes.copy_from_slice(seed);
    ed25519_dalek::SigningKey::from_bytes(&bytes).verifying_key().to_bytes().to_vec()
}

/// Trusted: `ed25519_dalek::SigningKey::from_bytes` then `Signer::sign` and
/// `to_bytes`. Ed25519 signing is deterministic; the 64-byte signature is
/// named, not stated.
#[verifier::external_body]
fn ed25519_sign(seed: &[u8], message: &[u8]) -> (sig: Vec<u8>)
    requires
        seed@.len() == 32,
    ensures
        sig@ == ed25519_signature_of(seed@, message@),
        sig@.len() == 64,
{
    let mut bytes = [0u8; 32];
    bytes.copy_from_slice(seed);
    ed25519_dalek::SigningKey::from_bytes(&bytes).sign(message).to_bytes().to_vec()
}

/// Trusted: `ed25519_dalek::SigningKey::generate` with the operating
/// system's random source, then `to_bytes`. The seed is random; only its
/// length is stated.
#[verifier::external_body]
fn random_device_seed() -> (seed: Vec<u8>)
    ensures
        seed@.len() == 32,
{
    ed25519_dalek::SigningKey::generate(&mut rand_core::OsRng).to_bytes().to_vec()
}

/// A fresh device key: 32 random bytes as 64 lower-case hexadecimal digits.
pub fn generate_device_key() -> (key: String)
    ensures
        exists|seed: Seq<u8>| seed.len() == 32 && key@ == hex_lower(seed),
{
    let seed = random_device_seed();
    hex_encode(seed.as_slice())
}

/// Why talking to the relay failed.
#[derive(Debug)]
pub enum RelayError {
    Http(String),
    Api { code: u16, message: String },
    PendingApproval,
    Deauthorized,
    Config(String),
}

/// The text that a relay error displays.
pub open spec fn relay_message(e: RelayError) -> Seq<char> {
    match e {
        RelayError::Http(m) => "HTTP error: "@ + m@,
        RelayError::Api { code, message } => "Relay API error ("@ + decimal(code as nat) + "): "@
            + message@,
        RelayError::PendingApproval => "device not approved yet"@,
        RelayError::Deauthorized => "device deauthorized"@,
        RelayError::Config(m) => "configuration error: "@ + m@,
    }
}

/// Whether `se` is the storage error that the relay error `e` amounts to.
pub open spec fn is_storage_of(e: RelayError, se: StorageError) -> bool {
    match e {
        RelayError::PendingApproval => se matches StorageError::Connection(m) && m@
            == "device not approved by relay yet"@,
        RelayError::Deauthorized => se matches StorageError::PermissionDenied(m) && m@
            == "device deauthorized by relay"@,
        RelayError::Http(_) => se matches StorageError::Connection(m) && m@ == relay_message(e),
        RelayError::Api { .. } => se matches StorageError::Connection(m) && m@ == relay_message(e),
        RelayError::Config(_) => se matches StorageError::Config(m) && m@ == relay_message(e),
    }
}

impl RelayError {
    /// The text that the error displays.
    pub fn message(&self) -> (s: String)
        ensures
            s@ == relay_message(*self),
    {
        match self {
            RelayError::Http(m) => concat2("HTTP error: ", m.as_str()),
            RelayError::Api { code, message } => {
                let digits = u64_to_decimal(*code as u64);
                let head = concat3("Relay API error (", digits.as_str(), "): ");
                concat2(head.as_str(), message.as_str())
            },
            RelayError::PendingApproval => "device not approved yet".to_owned(),
            RelayError::Deauthorized => "device deauthorized".to_owned(),
            RelayError::Config(m) => concat2("configuration error: ", m.as_str()),
        }
    }

    /// The storage error a relay failure amounts to: waiting for approval
    /// and transport or API failures are connection problems, worth retrying;
    /// a withdrawn device is refused permission and a bad setting is a
    /// configuration error, neither worth retrying.
    pub fn to_storage(&self) -> (e: StorageError)
        ensures
            is_storage_of(*self, e),
            (e is Connection || e is Transfer || e is Io) <==> (*self is PendingApproval || *self is Http
                || *self is Api),
    {
        match self {
            RelayError::PendingApproval => StorageError::Connection(
                "device not approved by relay yet".to_owned(),
            ),
            RelayError::Deauthorized => StorageError::PermissionDenied(
                "device deauthorized by relay".to_owned(),
            ),
            RelayError::Http(_) | RelayError::Api { .. } => StorageError::Connection(self.message()),
            RelayError::Config(_) => StorageError::Config(self.message()),
        }
    }
}

/// The relay client's identity and settings. `app/` pairs it with an HTTP
/// client configured from the same settings.
pub struct RelayClient {
    base: String,
    seed: Vec<u8>,
    public_key_hex: String,
    device_name: String,
    approval_timeout_secs: u64,
}

/// The relay URL without trailing slashes.
pub open spec fn relay_base(config: RelayConfig) -> Seq<char> {
    trim_end_char(config.url@, '/')
}

/// The bytes of the device key text, surrounding white space removed.
pub open spec fn device_key_text(config: RelayConfig) -> Seq<u8> {
    encode_utf8(trim_ws(config.device_key@))
}

/// How a reply to the approval status poll is read.
#[derive(Debug, Clone, Copy, PartialEq, Eq, Structural)]
pub enum ApprovalPoll {
    Approved,
    Deauthorized,
    Waiting,
}

/// The fields of the relay's credentials reply that are read, each absent
/// when the reply lacks it or holds something else than expected there.
pub struct CredentialsReply {
    pub protocol: Option<String>,
    pub host: Option<String>,
    pub port: Option<u64>,
    pub user: Option<String>,
    pub password: Option<String>,
    pub root: Option<String>,
    pub ca_cert: Option<String>,
}

/// A string field's text, or the empty text when it is absent.
pub open spec fn text_or_empty(o: Option<String>) -> Seq<char> {
    match o {
        Some(s) => s@,
        None => Seq::empty(),
    }
}

impl RelayClient {
    /// The device's secret is always 32 bytes.
    #[verifier::type_invariant]
    closed spec fn seed_is_whole(&self) -> bool {
        self.seed@.len() == 32
    }

    /// The relay URL, without trailing slashes.
    pub closed spec fn base_spec(&self) -> Seq<char> {
        self.base@
    }

    /// The device's secret seed.
    pub closed spec fn seed_spec(&self) -> Seq<u8> {
        self.seed@
    }

    /// The device's public key in hexadecimal.
    pub closed spec fn public_key_spec(&self) -> Seq<char> {
        self.public_key_hex@
    }

    /// The device's name.
    pub closed spec fn device_name_spec(&self) -> Seq<char> {
        self.device_name@
    }

    /// How long to wait for approval, in seconds.
    pub closed spec fn approval_timeout_spec(&self) -> u64 {
        self.approval_timeout_secs
    }

    /// Checks the relay settings and derives the device identity from its
    /// key: the URL must not be empty once trailing slashes are removed, and
    /// the key, without surrounding white space, must be the hexadecimal form
    /// of exactly 32 bytes.
    pub fn new(config: &RelayConfig) -> (r: Result<Self, RelayError>)
        ensures
            relay_base(*config).len() == 0 ==> (r matches Err(RelayError::Config(m)) && m@
                == "relay.url is empty"@),
            relay_base(*config).len() > 0 && !is_hex_text(device_key_text(*config)) ==> (r matches Err(
                RelayError::Config(m),
            ) && m@ == "relay.device_key must be hex"@),
            relay_base(*config).len() > 0 && is_hex_text(device_key_text(*config)) && hex_bytes(
                device_key_text(*config),
            ).len() != 32 ==> (r matches Err(RelayError::Config(m)) && m@
                == "relay.device_key must be exactly 32 bytes"@),
            relay_base(*config).len() > 0 && is_hex_text(device_key_text(*config)) && hex_bytes(
                device_key_text(*config),
            ).len() == 32 ==> (r matches Ok(c) && c.base_spec() == relay_base(*config)
                && c.seed_spec() == hex_bytes(device_key_text(*config)) && c.public_key_spec()
                == hex_lower(ed25519_public_key_of(hex_bytes(device_key_text(*config))))
                && c.public_key_spec().len() == 64 && c.device_name_spec() == config.device_name@ && c.approval_timeout_spec()
                == config.approval_timeout_secs),
    {
        let base = trim_end_matches_char(config.url.as_str(), '/');
        if base.as_str().is_empty() {
            return Err(RelayError::Config("relay.url is empty".to_owned()));
        }
        let key = trim_whitespace(config.device_key.as_str());
        let seed = match hex_decode(key.as_str().as_bytes()) {
            Ok(bytes) => bytes,
            Err(_) => return Err(RelayError::Config("relay.device_key must be hex".to_owned())),
        };
        if seed.len() != 32 {
            return Err(RelayError::Config("relay.device_key must be exactly 32 bytes".to_owned()));
        }
        let public_key = ed25519_public_key(seed.as_slice());
        let public_key_hex = hex_encode(public_key.as_slice());
        Ok(
            RelayClient {
                base,
                seed,
                public_key_hex,
                device_name: config.device_name.clone(),
                approval_timeout_secs: config.approval_timeout_secs,
            },
        )
    }

    /// The relay URL, without trailing slashes.
    pub fn base(&self) -> (s: &str)
        ensures
            s@ == self.base_spec(),
    {
        self.base.as_str()
    }

    /// The device's public key in hexadecimal.
    pub fn public_key(&self) -> (s: &str)
        ensures
            s@ == self.public_key_spec(),
    {
        self.public_key_hex.as_str()
    }

    /// The device's name.
    pub fn device_name(&self) -> (s: &str)
        ensures
            s@ == self.device_name_spec(),
    {
        self.device_name.as_str()
    }

    /// How long to wait for approval, in seconds.
    pub fn approval_timeout(&self) -> (t: u64)
        ensures
            t == self.approval_timeout_spec(),
    {
        self.approval_timeout_secs
    }

    /// The text signed to answer a challenge: the nonce, the public key and
    /// the time in seconds since the UNIX epoch, run together.
    pub fn challenge_message(&self, nonce: &str, timestamp: u64) -> (s: String)
        ensures
            s@ == nonce@ + self.public_key_spec() + decimal(timestamp as nat),
    {
        let digits = u64_to_decimal(timestamp);
        concat3(nonce, self.public_key_hex.as_str(), digits.as_str())
    }

    /// The device's signature of a message, in hexadecimal.
    pub fn sign(&self, message: &str) -> (s: String)
        ensures
            s@ == hex_lower(ed25519_signature_of(self.seed_spec(), encode_utf8(message@))),
    {
        proof {
            use_type_invariant(self);
        }
        let sig = ed25519_sign(self.seed.as_slice(), message.as_bytes());
        hex_encode(sig.as_slice())
    }

    /// Reads the `status` field of an approval poll.
    pub fn approval_poll(status: Option<&str>) -> (p: ApprovalPoll)
        ensures
            p == (match status {
                Some(s) => if s@ == "approved"@ {
                    ApprovalPoll::Approved
                } else if s@ == "deauthorized"@ {
                    ApprovalPoll::Deauthorized
                } else {
                    ApprovalPoll::Waiting
                },
                None => ApprovalPoll::Waiting,
            }),
    {
        match status {
            Some(s) => if same_text(s, "approved") {
                ApprovalPoll::Approved
            } else if same_text(s, "deauthorized") {
                ApprovalPoll::Deauthorized
            } else {
                ApprovalPoll::Waiting
            },
            None => ApprovalPoll::Waiting,
        }
    }

    /// The error for a reply whose status is not a success: the reply's
    /// `detail` text when it has one, otherwise its whole body.
    pub fn api_error(code: u16, detail: Option<String>, body: String) -> (e: RelayError)
        ensures
            e matches RelayError::Api { code: c, message: m } && c == code && m@ == (match detail {
                Some(d) => d@,
                None => body@,
            }),
    {
        RelayError::Api {
            code,
            message: match detail {
                Some(d) => d,
                None => body,
            },
        }
    }

    /// The FTP settings the relay's credentials reply describes. A port
    /// beyond the 16-bit range keeps its low 16 bits.
    pub fn credentials_from_reply(reply: &CredentialsReply) -> (c: RemoteStorageConfig)
        ensures
            c.backend == StorageBackendType::Ftps,
            c.host@ == text_or_empty(reply.host),
            c.port == (match reply.port {
                Some(p) => Some(p as u16),
                None => None::<u16>,
            }),
            c.username@ == text_or_empty(reply.user),
            c.password@ == text_or_empty(reply.password),
            c.path_prefix@ == text_or_empty(reply.root),
            c.use_ssl == (reply.protocol matches Some(p) && p@ == "ftps"@),
            c.ca_cert is None,
            c.ca_cert_pem == reply.ca_cert,
            !c.danger_disable_cert_verify,
    {
        let use_ssl = match &reply.protocol {
            Some(p) => same_text(p.as_str(), "ftps"),
            None => false,
        };
        RemoteStorageConfig {
            backend: StorageBackendType::Ftps,
            host: text_or_new(&reply.host),
            port: match reply.port {
                Some(p) => Some(p as u16),
                None => None,
            },
            username: text_or_new(&reply.user),
            password: text_or_new(&reply.password),
            path_prefix: text_or_new(&reply.root),
            use_ssl,
            ca_cert: None,
            ca_cert_pem: copy_opt_string(&reply.ca_cert),
            danger_disable_cert_verify: false,
        }
    }
}

/// A string field's text, or a new empty string.
fn text_or_new(o: &Option<String>) -> (s: String)
    ensures
        s@ == text_or_empty(*o),
{
    match o {
        Some(s) => s.clone(),
        None => String::new(),
    }
}


/// The fields of the `backend` object of a versioned credentials reply that
/// are read, each absent when the object lacks it or holds something else
/// than expected there. `kind` is the object's `type`.
pub struct BackendReply {
    pub kind: Option<String>,
    pub host: Option<String>,
    pub port: Option<u64>,
    pub user: Option<String>,
    pub password: Option<String>,
    pub root: Option<String>,
    pub ca_cert: Option<String>,
    pub endpoint: Option<String>,
    pub region: Option<String>,
    pub bucket: Option<String>,
    pub path_style: Option<bool>,
    pub access_key_id: Option<String>,
    pub secret_access_key: Option<String>,
    pub session_token: Option<String>,
}

/// A credentials reply as read: the version and the `backend` object of the
/// versioned shape, each absent when the reply lacks it, and the fields of
/// the flat shape, which is the one meant when there is no `backend` object.
pub struct FetchReply {
    pub version: Option<u64>,
    pub backend: Option<BackendReply>,
    pub flat: CredentialsReply,
}

/// The low 16 bits of a port, when there is one.
pub open spec fn port_of(p: Option<u64>) -> Option<u16> {
    match p {
        Some(p) => Some(p as u16),
        None => None,
    }
}

/// The version a versioned reply declares; one without a version field is
/// read as version 1.
pub open spec fn declared_version(r: FetchReply) -> nat {
    match r.version {
        Some(v) => v as nat,
        None => 1,
    }
}

/// The message for a reply version newer than the one understood.
pub open spec fn newer_reply_message(version: nat) -> Seq<char> {
    "backend config version "@ + decimal(version) + " is newer than supported version "@ + decimal(
        BACKEND_CONFIG_VERSION as nat,
    )
}

/// Why a credentials reply is refused, if it is: only the versioned shape
/// can be refused, for its version, for a missing or unknown backend type,
/// or for an S3 backend without an endpoint.
pub open spec fn reply_refusal(r: FetchReply) -> Option<Seq<char>> {
    match r.backend {
        None => None,
        Some(b) => if declared_version(r) > BACKEND_CONFIG_VERSION {
            Some(newer_reply_message(declared_version(r)))
        } else if declared_version(r) == 0 {
            Some("backend config version must be at least 1"@)
        } else {
            match b.kind {
                None => Some("backend type is missing"@),
                Some(k) => if k@ == "ftps"@ {
                    None
                } else if k@ == "s3"@ {
                    if b.endpoint is None {
                        Some("s3 backend requires an endpoint"@)
                    } else {
                        None
                    }
                } else {
                    Some("unsupported backend type: "@ + k@)
                },
            }
        },
    }
}

/// The FTP settings of a flat reply: its fields, TLS when the protocol is
/// `ftps`, the certificate given as PEM text, verification on.
pub open spec fn ftps_of_flat(f: FtpsConfig, r: CredentialsReply) -> bool {
    &&& f.host@ == text_or_empty(r.host)
    &&& f.port == port_of(r.port)
    &&& f.username@ == text_or_empty(r.user)
    &&& f.password@ == text_or_empty(r.password)
    &&& f.path_prefix@ == text_or_empty(r.root)
    &&& f.use_ssl == (r.protocol matches Some(p) && p@ == "ftps"@)
    &&& f.ca_cert is None
    &&& f.ca_cert_pem == r.ca_cert
    &&& !f.danger_disable_cert_verify
}

/// The FTPS settings of a versioned `ftps` backend: its fields, the root as
/// the path prefix, always TLS, verification on.
pub open spec fn ftps_of_backend(f: FtpsConfig, b: BackendReply) -> bool {
    &&& f.host@ == text_or_empty(b.host)
    &&& f.port == port_of(b.port)
    &&& f.username@ == text_or_empty(b.user)
    &&& f.password@ == text_or_empty(b.password)
    &&& f.path_prefix@ == text_or_empty(b.root)
    &&& f.use_ssl
    &&& f.ca_cert is None
    &&& f.ca_cert_pem == b.ca_cert
    &&& !f.danger_disable_cert_verify
}

/// The S3 settings of a versioned `s3` backend: its fields, path-style
/// addressing unless the reply turns it off, the root as the path prefix,
/// no multipart threshold of its own, keys named after the paths.
pub open spec fn s3_of_backend(s: S3Config, b: BackendReply) -> bool {
    &&& s.endpoint@ == text_or_empty(b.endpoint)
    &&& s.region == b.region
    &&& s.bucket@ == text_or_empty(b.bucket)
    &&& s.path_style == (match b.path_style {
        Some(p) => p,
        None => true,
    })
    &&& s.access_key_id@ == text_or_empty(b.access_key_id)
    &&& s.secret_access_key@ == text_or_empty(b.secret_access_key)
    &&& s.session_token == b.session_token
    &&& s.path_prefix@ == text_or_empty(b.root)
    &&& s.ca_cert_pem == b.ca_cert
    &&& s.multipart_threshold_bytes is None
    &&& !s.immutable_naming
}

/// The backend settings a credentials reply describes. A reply without a
/// `backend` object is the flat FTP shape, read as version 1. A versioned
/// one is accepted from version 1 up to the current one, a missing version
/// counting as 1, with an `ftps` or `s3` backend; anything else is refused
/// as a configuration error.
pub fn parse_fetch_payload(reply: &FetchReply) -> (r: Result<VersionedBackendConfig, RelayError>)
    ensures
        reply_refusal(*reply) matches Some(m) ==> (r matches Err(RelayError::Config(e)) && e@ == m),
        reply_refusal(*reply) is None ==> (r matches Ok(c) && c.version == BACKEND_CONFIG_VERSION),
        reply.backend is None ==> (r matches Ok(c) && c.backend matches BackendConfig::Ftps(f) && ftps_of_flat(
            f,
            reply.flat,
        )),
        (reply.backend matches Some(b) && b.kind matches Some(k) && k@ == "ftps"@) ==> (r is Ok ==> (r matches Ok(
            c,
        ) && c.backend matches BackendConfig::Ftps(f) && ftps_of_backend(f, reply.backend->0))),
        (reply.backend matches Some(b) && b.kind matches Some(k) && k@ == "s3"@) ==> (r is Ok ==> (r matches Ok(c)
            && c.backend matches BackendConfig::S3(s) && s3_of_backend(s, reply.backend->0))),
{
    let b = match &reply.backend {
        None => {
            let c = RelayClient::credentials_from_reply(&reply.flat);
            let f = FtpsConfig {
                host: c.host,
                port: c.port,
                username: c.username,
                password: c.password,
                path_prefix: c.path_prefix,
                use_ssl: c.use_ssl,
                ca_cert: c.ca_cert,
                ca_cert_pem: c.ca_cert_pem,
                danger_disable_cert_verify: c.danger_disable_cert_verify,
            };
            return Ok(VersionedBackendConfig { version: BACKEND_CONFIG_VERSION, backend: BackendConfig::Ftps(f) });
        },
        Some(b) => b,
    };
    let version: u64 = match reply.version {
        Some(v) => v,
        None => 1,
    };
    if version > BACKEND_CONFIG_VERSION as u64 {
        let v = u64_to_decimal(version);
        let supported = u64_to_decimal(BACKEND_CONFIG_VERSION as u64);
        let head = concat3("backend config version ", v.as_str(), " is newer than supported version ");
        return Err(RelayError::Config(concat2(head.as_str(), supported.as_str())));
    }
    if version == 0 {
        return Err(RelayError::Config("backend config version must be at least 1".to_owned()));
    }
    let kind = match &b.kind {
        None => {
            return Err(RelayError::Config("backend type is missing".to_owned()));
        },
        Some(k) => k,
    };
    proof {
        reveal_strlit("ftps");
        reveal_strlit("s3");
        assert("ftps"@.len() != "s3"@.len());
    }
    if same_text(kind.as_str(), "ftps") {
        let f = FtpsConfig {
            host: text_or_new(&b.host),
            port: match b.port {
                Some(p) => Some(p as u16),
                None => None,
            },
            username: text_or_new(&b.user),
            password: text_or_new(&b.password),
            path_prefix: text_or_new(&b.root),
            use_ssl: true,
            ca_cert: None,
            ca_cert_pem: copy_opt_string(&b.ca_cert),
            danger_disable_cert_verify: false,
        };
        Ok(VersionedBackendConfig { version: BACKEND_CONFIG_VERSION, backend: BackendConfig::Ftps(f) })
    } else if same_text(kind.as_str(), "s3") {
        let endpoint = match &b.endpoint {
            None => {
                return Err(RelayError::Config("s3 backend requires an endpoint".to_owned()));
            },
            Some(e) => e.clone(),
        };
        let s = S3Config {
            endpoint,
            region: copy_opt_string(&b.region),
            bucket: text_or_new(&b.bucket),
            path_style: match b.path_style {
                Some(p) => p,
                None => true,
            },
            access_key_id: text_or_new(&b.access_key_id),
            secret_access_key: text_or_new(&b.secret_access_key),
            session_token: copy_opt_string(&b.session_token),
            path_prefix: text_or_new(&b.root),
            ca_cert_pem: copy_opt_string(&b.ca_cert),
            multipart_threshold_bytes: None,
            immutable_naming: false,
        };
        Ok(VersionedBackendConfig { version: BACKEND_CONFIG_VERSION, backend: BackendConfig::S3(s) })
    } else {
        Err(RelayError::Config(concat2("unsupported backend type: ", kind.as_str())))
    }
}

/// Whether an HTTP status code reports success.
pub open spec fn http_success(code: u16) -> bool {
    200 <= code < 300
}

impl RelayClient {
    /// The full URL of a relay endpoint.
    pub fn endpoint(&self, path: &str) -> (s: String)
        ensures
            s@ == self.base_spec() + path@,
    {
        concat2(self.base.as_str(), path)
    }

    /// The path that polls this device's approval status.
    pub fn status_path(&self) -> (s: String)
        ensures
            s@ == "/api/devices/status?public_key="@ + self.public_key_spec(),
    {
        concat2("/api/devices/status?public_key=", self.public_key_hex.as_str())
    }

    /// What a reply's status means: success, or the API error that carries
    /// the reply's `detail` text, otherwise its whole body.
    pub fn check_reply(code: u16, detail: Option<String>, body: String) -> (r: Result<(), RelayError>)
        ensures
            http_success(code) ==> r is Ok,
            !http_success(code) ==> (r matches Err(RelayError::Api { code: c, message: m }) && c == code
                && m@ == (match detail {
                Some(d) => d@,
                None => body@,
            })),
    {
        if 200 <= code && code < 300 {
            Ok(())
        } else {
            Err(Self::api_error(code, detail, body))
        }
    }

    /// What one approval poll settles: approval, withdrawal, or nothing yet.
    pub fn approval_outcome(poll: ApprovalPoll) -> (r: Option<Result<(), RelayError>>)
        ensures
            poll == ApprovalPoll::Approved ==> r matches Some(Ok(())),
            poll == ApprovalPoll::Deauthorized ==> r matches Some(Err(RelayError::Deauthorized)),
            poll == ApprovalPoll::Waiting ==> r is None,
    {
        match poll {
            ApprovalPoll::Approved => Some(Ok(())),
            ApprovalPoll::Deauthorized => Some(Err(RelayError::Deauthorized)),
            ApprovalPoll::Waiting => None,
        }
    }

    /// The challenge nonce of the relay's reply, which it must hold.
    pub fn challenge_from_reply(challenge: Option<String>) -> (r: Result<String, RelayError>)
        ensures
            challenge matches Some(c) ==> (r matches Ok(n) && n@ == c@),
            challenge is None ==> (r matches Err(RelayError::Http(m)) && m@
                == "missing challenge in response"@),
    {
        match challenge {
            Some(c) => Ok(c),
            None => Err(RelayError::Http("missing challenge in response".to_owned())),
        }
    }

    /// The session token of the relay's reply, which it must hold.
    pub fn token_from_reply(token: Option<String>) -> (r: Result<String, RelayError>)
        ensures
            token matches Some(t) ==> (r matches Ok(n) && n@ == t@),
            token is None ==> (r matches Err(RelayError::Http(m)) && m@
                == "missing session_token in response"@),
    {
        match token {
            Some(t) => Ok(t),
            None => Err(RelayError::Http("missing session_token in response".to_owned())),
        }
    }
}

/// The steps of obtaining storage credentials from the relay, in order.
#[derive(Debug, Clone, Copy, PartialEq, Eq, Structural)]
pub enum CredentialStage {
    Register,
    AwaitApproval,
    Authenticate,
    Fetch,
    Armed,
    Failed,
}

/// What follows a step: the next stage, the status event published on the
/// way, and the storage error the whole attempt ends with, if any.
pub struct StageOutcome {
    pub next: CredentialStage,
    pub event: Option<FtpEvent>,
    pub error: Option<StorageError>,
}

/// Whether `e` is the relay status event with this status and message.
pub open spec fn is_status_event(e: FtpEvent, status: Seq<char>, message: Option<Seq<char>>) -> bool {
    e matches FtpEvent::RelayStatus { status: s, message: m } && s@ == status && match message {
        Some(x) => m matches Some(y) && y@ == x,
        None => m is None,
    }
}

/// The stage after a step that succeeded.
pub open spec fn stage_after(stage: CredentialStage) -> CredentialStage {
    match stage {
        CredentialStage::Register => CredentialStage::AwaitApproval,
        CredentialStage::AwaitApproval => CredentialStage::Authenticate,
        CredentialStage::Authenticate => CredentialStage::Fetch,
        _ => CredentialStage::Armed,
    }
}

/// A step is still to be taken.
pub open spec fn stage_pending(stage: CredentialStage) -> bool {
    stage != CredentialStage::Armed && stage != CredentialStage::Failed
}

/// The relay status event with this status and message.
pub fn relay_status_event(status: &str, message: Option<&str>) -> (e: FtpEvent)
    ensures
        is_status_event(e, status@, match message {
            Some(m) => Some(m@),
            None => None,
        }),
{
    FtpEvent::RelayStatus {
        status: status.to_owned(),
        message: match message {
            Some(m) => Some(m.to_owned()),
            None => None,
        },
    }
}

/// The first stage, and the `registering` event published before it.
pub fn credentials_start() -> (r: (CredentialStage, FtpEvent))
    ensures
        r.0 == CredentialStage::Register,
        is_status_event(r.1, "registering"@, None),
{
    (CredentialStage::Register, relay_status_event("registering", None))
}

/// Advances past a step given its failure, if it failed. A failure ends the
/// attempt with the storage error it amounts to and publishes nothing; a
/// success moves to the next step, publishing `registered` after
/// registration, `approved` after approval and `active` once the credentials
/// are in hand.
pub fn credentials_advance(stage: CredentialStage, failure: Option<RelayError>) -> (r: StageOutcome)
    requires
        stage_pending(stage),
    ensures
        failure matches Some(e) ==> (r.next == CredentialStage::Failed && r.event is None && (r.error
            matches Some(se) && is_storage_of(e, se))),
        failure is None ==> r.next == stage_after(stage) && r.error is None,
        failure is None && stage == CredentialStage::Register ==> (r.event matches Some(ev)
            && is_status_event(ev, "registered"@, None)),
        failure is None && stage == CredentialStage::AwaitApproval ==> (r.event matches Some(ev)
            && is_status_event(ev, "approved"@, None)),
        failure is None && stage == CredentialStage::Authenticate ==> r.event is None,
        failure is None && stage == CredentialStage::Fetch ==> (r.event matches Some(ev)
            && is_status_event(ev, "active"@, Some("credentials armed"@))),
{
    match failure {
        Some(e) => StageOutcome { next: CredentialStage::Failed, event: None, error: Some(e.to_storage()) },
        None => match stage {
            CredentialStage::Register => StageOutcome {
                next: CredentialStage::AwaitApproval,
                event: Some(relay_status_event("registered", None)),
                error: None,
            },
            CredentialStage::AwaitApproval => StageOutcome {
                next: CredentialStage::Authenticate,
                event: Some(relay_status_event("approved", None)),
                error: None,
            },
            CredentialStage::Authenticate => StageOutcome {
                next: CredentialStage::Fetch,
                event: None,
                error: None,
            },
            _ => StageOutcome {
                next: CredentialStage::Armed,
                event: Some(relay_status_event("active", Some("credentials armed"))),
                error: None,
            },
        },
    }
}

/// The backend settings the relay handed out, kept for the life of the
/// process once an attempt to obtain them has succeeded.
pub struct CredentialCache {
    cached: Option<VersionedBackendConfig>,
}

/// How an attempt to obtain credentials begins: with the kept credentials,
/// asking the relay nothing, or with the first step and its event.
pub enum CredentialsBegin {
    Cached(VersionedBackendConfig),
    Steps(CredentialStage, FtpEvent),
}

/// The credentials kept after an attempt that ended at `stage` having
/// fetched `fetched`: those kept before, if any; otherwise the fetched ones
/// when the attempt armed them; otherwise none.
pub open spec fn cache_after(
    cached: Option<VersionedBackendConfig>,
    stage: CredentialStage,
    fetched: Option<VersionedBackendConfig>,
) -> Option<VersionedBackendConfig> {
    if cached is Some {
        cached
    } else if stage == CredentialStage::Armed && fetched is Some {
        fetched
    } else {
        None
    }
}

impl CredentialCache {
    /// The kept credentials, if any.
    pub closed spec fn view(&self) -> Option<VersionedBackendConfig> {
        self.cached
    }

    /// Nothing kept yet.
    pub fn new() -> (c: Self)
        ensures
            c@ is None,
    {
        CredentialCache { cached: None }
    }

    /// Begins an attempt: kept credentials are handed back as they are and
    /// the relay is not asked; otherwise the attempt starts with
    /// registration, publishing `registering`.
    pub fn begin(&self) -> (r: CredentialsBegin)
        ensures
            self@ matches Some(c) ==> (r matches CredentialsBegin::Cached(x) && x == c),
            self@ is None ==> (r matches CredentialsBegin::Steps(stage, event) && stage
                == CredentialStage::Register && is_status_event(event, "registering"@, None)),
    {
        match &self.cached {
            Some(c) => CredentialsBegin::Cached(c.duplicate()),
            None => {
                let (stage, event) = credentials_start();
                CredentialsBegin::Steps(stage, event)
            },
        }
    }

    /// Ends an attempt that stopped at `stage` having fetched `fetched`:
    /// armed credentials are kept; a failed attempt keeps nothing.
    pub fn finish(&mut self, stage: CredentialStage, fetched: Option<VersionedBackendConfig>)
        ensures
            final(self)@ == cache_after(old(self)@, stage, fetched),
    {
        if self.cached.is_none() && stage == CredentialStage::Armed && fetched.is_some() {
            self.cached = fetched;
        }
    }
}

/// The relay is asked at most once for credentials that arrive: an attempt
/// that armed credentials keeps them, and from then on every attempt is
/// served them unchanged whatever it would have done; an attempt that failed
/// keeps nothing, so the next one starts again from registration.
pub proof fn law_credentials_kept(
    c: VersionedBackendConfig,
    stage: CredentialStage,
    fetched: Option<VersionedBackendConfig>,
)
    ensures
        cache_after(None, CredentialStage::Armed, Some(c)) == Some(c),
        cache_after(Some(c), stage, fetched) == Some(c),
        cache_after(None, CredentialStage::Failed, fetched) is None,
{
}

proof fn lemma_hex_digit(d: int)
    requires
        0 <= d < 16,
    ensures
        (hex_digit_lower(d) as u32) < 128,
        hex_value(hex_digit_lower(d) as u8) == d,
        !white_space(hex_digit_lower(d)),
{
    let c = hex_digit_lower(d);
    if d < 10 {
        assert((c as u32) == d + 48);
        assert((c as u8) == d + 48);
    } else {
        assert((c as u32) == d + 87);
        assert((c as u8) == d + 87);
    }
}

proof fn lemma_hex_text(seed: Seq<u8>)
    ensures
        is_ascii_chars(hex_lower(seed)),
        forall|i: int|
            0 <= i < hex_lower(seed).len() ==> !white_space(#[trigger] hex_lower(seed)[i]),
        forall|i: int|
            0 <= i < hex_lower(seed).len() ==> hex_value(#[trigger] hex_lower(seed)[i] as u8) == (if i % 2
                == 0 {
                seed[i / 2] / 16
            } else {
                seed[i / 2] % 16
            }),
{
    let h = hex_lower(seed);
    assert forall|i: int| 0 <= i < h.len() implies '\0' <= #[trigger] h[i] <= '\u{7f}' && !white_space(h[i])
        && hex_value(h[i] as u8) == (if i % 2 == 0 { seed[i / 2] / 16 } else { seed[i / 2] % 16 }) by {
        let d = if i % 2 == 0 { seed[i / 2] / 16 } else { seed[i / 2] % 16 } as int;
        lemma_hex_digit(d);
    }
}

/// A device key of 32 bytes written in lower-case hexadecimal, as
/// `generate_device_key` writes them, is one that `RelayClient::new` accepts,
/// and it stands for exactly those bytes: the device keeps the seed it was
/// given.
pub proof fn law_generated_key_accepted(seed: Seq<u8>, config: RelayConfig)
    requires
        seed.len() == 32,
        config.device_key@ == hex_lower(seed),
    ensures
        is_hex_text(device_key_text(config)),
        hex_bytes(device_key_text(config)) == seed,
{
    let h = hex_lower(seed);
    lemma_hex_text(seed);
    assert(trim_start_ws(h) == h);
    assert(trim_end_ws(h) == h);
    assert(trim_ws(h) == h);
    is_ascii_chars_encode_utf8(h);
    let b = encode_utf8(h);
    assert(b.len() == 64);
    assert forall|i: int| 0 <= i < b.len() implies hex_value(#[trigger] b[i]) >= 0 by {
        assert(b[i] == h[i] as u8);
    }
    assert forall|i: int| 0 <= i < 32 implies #[trigger] hex_bytes(b)[i] == seed[i] by {
        assert(b[2 * i] == h[2 * i] as u8);
        assert(b[2 * i + 1] == h[2 * i + 1] as u8);
        assert((2 * i) / 2 == i && (2 * i) % 2 == 0);
        assert((2 * i + 1) / 2 == i && (2 * i + 1) % 2 == 1);
        assert(seed[i] / 16 * 16 + seed[i] % 16 == seed[i]);
    }
    assert(hex_bytes(b) =~= seed);
}

} // verus!
