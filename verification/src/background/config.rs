//! Settings of the background jobs and of the remote storage they replicate to.
//!
//! `app/` reads these from a JSON file through copies of the types that carry
//! the serde derives.
use vstd::prelude::*;
use crate::text::{concat2, concat3, copy_opt_string, decimal, distinct_keys, entries_of, find_entry, find_first, lemma_find_distinct, u64_to_decimal};

verus! {

/// Settings of the background job system. Durations are in nanoseconds.
pub struct BackgroundJobConfig {
    pub enabled: bool,
    pub max_parallel_jobs: usize,
    pub retry_delay_base: u128,
    pub max_retries: u32,
    pub queue_capacity: usize,
    pub remote_storage: Option<RemoteStorageConfig>,
    pub storage: Option<VersionedBackendConfig>,
    pub user_mapping: UserMapping,
    pub relay: Option<RelayConfig>,
}

/// Five seconds.
pub const DEFAULT_RETRY_DELAY_NANOS: u128 = 5_000_000_000u128;

impl Default for BackgroundJobConfig {
    /// Disabled; two workers, three retries five seconds apart, room for a
    /// thousand queued jobs, no remote storage, paths prefixed by user name.
    fn default() -> (c: Self)
        ensures
            !c.enabled,
            c.max_parallel_jobs == 2,
            c.retry_delay_base == DEFAULT_RETRY_DELAY_NANOS,
            c.max_retries == 3,
            c.queue_capacity == 1000,
            c.remote_storage is None,
            c.storage is None,
            c.user_mapping is PrefixUserName,
            c.relay is None,
    {
        BackgroundJobConfig {
            enabled: false,
            max_parallel_jobs: 2,
            retry_delay_base: DEFAULT_RETRY_DELAY_NANOS,
            max_retries: 3,
            queue_capacity: 1000,
            remote_storage: None,
            storage: None,
            user_mapping: UserMapping::PrefixUserName,
            relay: None,
        }
    }
}

/// The remote storage settings in their original, flat shape.
pub struct RemoteStorageConfig {
    pub backend: StorageBackendType,
    pub host: String,
    pub port: Option<u16>,
    pub username: String,
    pub password: String,
    pub path_prefix: String,
    pub use_ssl: bool,
    pub ca_cert: Option<String>,
    pub ca_cert_pem: Option<String>,
    pub danger_disable_cert_verify: bool,
}

impl Default for RemoteStorageConfig {
    /// An FTP target with empty host and credentials, plain FTP, system trust.
    fn default() -> (c: Self)
        ensures
            c.backend == StorageBackendType::Ftps,
            c.host@ == Seq::<char>::empty(),
            c.port is None,
            c.username@ == Seq::<char>::empty(),
            c.password@ == Seq::<char>::empty(),
            c.path_prefix@ == Seq::<char>::empty(),
            !c.use_ssl,
            c.ca_cert is None,
            c.ca_cert_pem is None,
            !c.danger_disable_cert_verify,
    {
        RemoteStorageConfig {
            backend: StorageBackendType::Ftps,
            host: String::new(),
            port: None,
            username: String::new(),
            password: String::new(),
            path_prefix: String::new(),
            use_ssl: false,
            ca_cert: None,
            ca_cert_pem: None,
            danger_disable_cert_verify: false,
        }
    }
}

impl RemoteStorageConfig {
    /// A copy of the settings.
    pub fn duplicate(&self) -> (c: Self)
        ensures
            c == *self,
    {
        RemoteStorageConfig {
            backend: self.backend,
            host: self.host.clone(),
            port: self.port,
            username: self.username.clone(),
            password: self.password.clone(),
            path_prefix: self.path_prefix.clone(),
            use_ssl: self.use_ssl,
            ca_cert: copy_opt_string(&self.ca_cert),
            ca_cert_pem: copy_opt_string(&self.ca_cert_pem),
            danger_disable_cert_verify: self.danger_disable_cert_verify,
        }
    }
}

/// The protocols a remote target may speak.
#[derive(Debug, Clone, Copy, PartialEq, Eq, Structural)]
pub enum StorageBackendType {
    Ftps,
    Sftp,
    Https,
    S3,
}

/// The variant name of a backend type, as its `Debug` form writes it.
pub open spec fn backend_type_label(t: StorageBackendType) -> Seq<char> {
    match t {
        StorageBackendType::Ftps => "Ftps"@,
        StorageBackendType::Sftp => "Sftp"@,
        StorageBackendType::Https => "Https"@,
        StorageBackendType::S3 => "S3"@,
    }
}

/// The newest version of the versioned backend settings that is understood.
pub const BACKEND_CONFIG_VERSION: u32 = 1;

/// The settings of one remote backend.
pub enum BackendConfig {
    Ftps(FtpsConfig),
    S3(S3Config),
}

/// The settings of an FTP or FTPS target.
pub struct FtpsConfig {
    pub host: String,
    pub port: Option<u16>,
    pub username: String,
    pub password: String,
    pub path_prefix: String,
    pub use_ssl: bool,
    pub ca_cert: Option<String>,
    pub ca_cert_pem: Option<String>,
    pub danger_disable_cert_verify: bool,
}

impl Default for FtpsConfig {
    /// Empty host and credentials, no port, plain FTP, system trust.
    fn default() -> (c: Self)
        ensures
            c.host@ == Seq::<char>::empty(),
            c.port is None,
            c.username@ == Seq::<char>::empty(),
            c.password@ == Seq::<char>::empty(),
            c.path_prefix@ == Seq::<char>::empty(),
            !c.use_ssl,
            c.ca_cert is None,
            c.ca_cert_pem is None,
            !c.danger_disable_cert_verify,
    {
        FtpsConfig {
            host: String::new(),
            port: None,
            username: String::new(),
            password: String::new(),
            path_prefix: String::new(),
            use_ssl: false,
            ca_cert: None,
            ca_cert_pem: None,
            danger_disable_cert_verify: false,
        }
    }
}

impl FtpsConfig {
    /// A copy of the settings.
    pub fn duplicate(&self) -> (c: Self)
        ensures
            c == *self,
    {
        FtpsConfig {
            host: self.host.clone(),
            port: self.port,
            username: self.username.clone(),
            password: self.password.clone(),
            path_prefix: self.path_prefix.clone(),
            use_ssl: self.use_ssl,
            ca_cert: copy_opt_string(&self.ca_cert),
            ca_cert_pem: copy_opt_string(&self.ca_cert_pem),
            danger_disable_cert_verify: self.danger_disable_cert_verify,
        }
    }
}

/// The settings of an S3-compatible target.
pub struct S3Config {
    pub endpoint: String,
    pub region: Option<String>,
    pub bucket: String,
    pub path_style: bool,
    pub access_key_id: String,
    pub secret_access_key: String,
    pub session_token: Option<String>,
    pub path_prefix: String,
    pub ca_cert_pem: Option<String>,
    pub multipart_threshold_bytes: Option<u64>,
    /// Each upload is stored under a fresh key, a random id before the file
    /// name, so that no object is ever overwritten.
    pub immutable_naming: bool,
}

impl Default for S3Config {
    /// Empty endpoint, bucket and credentials, path-style addressing.
    fn default() -> (c: Self)
        ensures
            c.endpoint@ == Seq::<char>::empty(),
            c.region is None,
            c.bucket@ == Seq::<char>::empty(),
            c.path_style,
            c.access_key_id@ == Seq::<char>::empty(),
            c.secret_access_key@ == Seq::<char>::empty(),
            c.session_token is None,
            c.path_prefix@ == Seq::<char>::empty(),
            c.ca_cert_pem is None,
            c.multipart_threshold_bytes is None,
            !c.immutable_naming,
    {
        S3Config {
            endpoint: String::new(),
            region: None,
            bucket: String::new(),
            path_style: true,
            access_key_id: String::new(),
            secret_access_key: String::new(),
            session_token: None,
            path_prefix: String::new(),
            ca_cert_pem: None,
            multipart_threshold_bytes: None,
            immutable_naming: false,
        }
    }
}

impl S3Config {
    /// A copy of the settings.
    pub fn duplicate(&self) -> (c: Self)
        ensures
            c == *self,
    {
        S3Config {
            endpoint: self.endpoint.clone(),
            region: copy_opt_string(&self.region),
            bucket: self.bucket.clone(),
            path_style: self.path_style,
            access_key_id: self.access_key_id.clone(),
            secret_access_key: self.secret_access_key.clone(),
            session_token: copy_opt_string(&self.session_token),
            path_prefix: self.path_prefix.clone(),
            ca_cert_pem: copy_opt_string(&self.ca_cert_pem),
            multipart_threshold_bytes: self.multipart_threshold_bytes,
            immutable_naming: self.immutable_naming,
        }
    }
}

/// Backend settings tagged with the version of their shape.
pub struct VersionedBackendConfig {
    pub version: u32,
    pub backend: BackendConfig,
}

/// The message for a version newer than the one understood.
pub open spec fn newer_version_message(version: u32) -> Seq<char> {
    "backend config version "@ + decimal(version as nat) + " is newer than supported version "@
        + decimal(BACKEND_CONFIG_VERSION as nat)
}

impl BackendConfig {
    /// A copy of the settings.
    pub fn duplicate(&self) -> (c: Self)
        ensures
            c == *self,
    {
        match self {
            BackendConfig::Ftps(f) => BackendConfig::Ftps(f.duplicate()),
            BackendConfig::S3(s) => BackendConfig::S3(s.duplicate()),
        }
    }
}

impl VersionedBackendConfig {
    /// Tags backend settings with the current version.
    pub fn new(backend: BackendConfig) -> (c: Self)
        ensures
            c.version == BACKEND_CONFIG_VERSION,
            c.backend == backend,
    {
        VersionedBackendConfig { version: BACKEND_CONFIG_VERSION, backend }
    }

    /// A copy of the settings.
    pub fn duplicate(&self) -> (c: Self)
        ensures
            c == *self,
    {
        VersionedBackendConfig { version: self.version, backend: self.backend.duplicate() }
    }

    /// Accepts the versions from 1 up to the current one.
    pub fn check_version(&self) -> (r: Result<(), String>)
        ensures
            self.version > BACKEND_CONFIG_VERSION ==> (r matches Err(m) && m@ == newer_version_message(
                self.version,
            )),
            self.version == 0 ==> (r matches Err(m) && m@ == "backend config version must be at least 1"@),
            1 <= self.version <= BACKEND_CONFIG_VERSION ==> r is Ok,
    {
        if self.version > BACKEND_CONFIG_VERSION {
            let v = u64_to_decimal(self.version as u64);
            let supported = u64_to_decimal(BACKEND_CONFIG_VERSION as u64);
            let head = concat3("backend config version ", v.as_str(), " is newer than supported version ");
            Err(concat2(head.as_str(), supported.as_str()))
        } else if self.version == 0 {
            Err("backend config version must be at least 1".to_owned())
        } else {
            Ok(())
        }
    }
}

/// The message for a flat remote-storage shape whose backend type it
/// cannot express.
pub open spec fn legacy_unsupported_message(t: StorageBackendType) -> Seq<char> {
    "legacy remote_storage shape cannot represent backend type "@ + backend_type_label(t)
        + "; use a versioned backend config"@
}

/// The FTP settings that a flat remote-storage shape stands for.
pub open spec fn ftps_from_legacy(l: RemoteStorageConfig) -> FtpsConfig {
    FtpsConfig {
        host: l.host,
        port: l.port,
        username: l.username,
        password: l.password,
        path_prefix: l.path_prefix,
        use_ssl: l.use_ssl,
        ca_cert: l.ca_cert,
        ca_cert_pem: l.ca_cert_pem,
        danger_disable_cert_verify: l.danger_disable_cert_verify,
    }
}

impl BackendConfig {
    /// Reads the flat remote-storage shape, which can only express FTP and
    /// FTPS targets.
    pub fn from_legacy(legacy: RemoteStorageConfig) -> (r: Result<Self, String>)
        ensures
            legacy.backend == StorageBackendType::Ftps ==> r == Ok::<BackendConfig, String>(
                BackendConfig::Ftps(ftps_from_legacy(legacy)),
            ),
            legacy.backend != StorageBackendType::Ftps ==> (r matches Err(m) && m@
                == legacy_unsupported_message(legacy.backend)),
    {
        match legacy.backend {
            StorageBackendType::Ftps => Ok(
                BackendConfig::Ftps(
                    FtpsConfig {
                        host: legacy.host,
                        port: legacy.port,
                        username: legacy.username,
                        password: legacy.password,
                        path_prefix: legacy.path_prefix,
                        use_ssl: legacy.use_ssl,
                        ca_cert: legacy.ca_cert,
                        ca_cert_pem: legacy.ca_cert_pem,
                        danger_disable_cert_verify: legacy.danger_disable_cert_verify,
                    },
                ),
            ),
            other => {
                let label = match other {
                    StorageBackendType::Ftps => "Ftps",
                    StorageBackendType::Sftp => "Sftp",
                    StorageBackendType::Https => "Https",
                    StorageBackendType::S3 => "S3",
                };
                Err(
                    concat3(
                        "legacy remote_storage shape cannot represent backend type ",
                        label,
                        "; use a versioned backend config",
                    ),
                )
            },
        }
    }
}

/// The settings of the relay that hands out storage credentials.
pub struct RelayConfig {
    pub url: String,
    pub device_key: String,
    pub device_name: String,
    pub approval_timeout_secs: u64,
    pub ca_cert: Option<String>,
    pub danger_disable_cert_verify: bool,
    pub relay_messages: bool,
}

impl Default for RelayConfig {
    /// No relay URL or key, device name `rftps`, half an hour to approve,
    /// system trust, relay messages printed.
    fn default() -> (c: Self)
        ensures
            c.url@ == Seq::<char>::empty(),
            c.device_key@ == Seq::<char>::empty(),
            c.device_name@ == "rftps"@,
            c.approval_timeout_secs == 1800,
            c.ca_cert is None,
            !c.danger_disable_cert_verify,
            c.relay_messages,
    {
        RelayConfig {
            url: String::new(),
            device_key: String::new(),
            device_name: "rftps".to_owned(),
            approval_timeout_secs: 1800,
            ca_cert: None,
            danger_disable_cert_verify: false,
            relay_messages: true,
        }
    }
}

/// Where a user's uploads go on the remote side.
pub enum UserMapping {
    /// Under a folder named after the user.
    PrefixUserName,
    /// Under one fixed folder, whoever uploads.
    FixedPath(String),
    /// Under the folder the list names for the user, or the user's name
    /// when the list names none. Each user appears at most once
    /// (`users_distinct`).
    UserMap(Vec<(String, String)>),
}

/// No user is listed twice: the list is a map from user names to folders.
pub open spec fn users_distinct(v: Seq<(String, String)>) -> bool {
    distinct_keys(entries_of(v))
}

/// The remote folder that a user's uploads go under.
pub open spec fn mapped_folder(m: UserMapping, username: Seq<char>) -> Seq<char> {
    match m {
        UserMapping::PrefixUserName => username,
        UserMapping::FixedPath(prefix) => prefix@,
        UserMapping::UserMap(v) => match find_first(entries_of(v@), username) {
            Some(folder) => folder,
            None => username,
        },
    }
}

/// A user map with each user listed at most once works as a map: a listed
/// user's uploads go under the folder listed for that user, wherever the
/// entry stands in the list, and an unlisted user's under their own name.
pub proof fn law_user_map_is_a_map(v: Seq<(String, String)>, m: UserMapping, username: Seq<char>, folder: Seq<char>)
    requires
        m matches UserMapping::UserMap(w) && w@ == v,
        users_distinct(v),
    ensures
        entries_of(v).contains((username, folder)) ==> mapped_folder(m, username) == folder,
        (forall|i: int| 0 <= i < v.len() ==> (#[trigger] v[i]).0@ != username) ==> mapped_folder(m, username) == username,
{
    lemma_find_distinct(entries_of(v), username, folder);
    if forall|i: int| 0 <= i < v.len() ==> (#[trigger] v[i]).0@ != username {
        assert forall|i: int| 0 <= i < entries_of(v).len() implies (#[trigger] entries_of(v)[i]).0 != username by {
            assert(v[i].0@ != username);
        }
    }
}

impl UserMapping {
    /// The remote path for a file a user uploaded: the mapped folder, a
    /// slash, then the file's path.
    pub fn resolve(&self, username: &str, path: &str) -> (r: String)
        ensures
            r@ == mapped_folder(*self, username@) + "/"@ + path@,
    {
        match self {
            UserMapping::PrefixUserName => concat3(username, "/", path),
            UserMapping::FixedPath(prefix) => concat3(prefix.as_str(), "/", path),
            UserMapping::UserMap(map) => match find_entry(map, username) {
                Some(i) => concat3(map[i].1.as_str(), "/", path),
                None => concat3(username, "/", path),
            },
        }
    }
}

} // verus!
