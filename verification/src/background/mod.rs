//! Background replication: its settings, its event handler and executor.
pub mod config;
pub mod replication;
pub mod relay;

pub use config::{
    BackendConfig, BackgroundJobConfig, FtpsConfig, RelayConfig, RemoteStorageConfig, S3Config,
    StorageBackendType, UserMapping, VersionedBackendConfig, BACKEND_CONFIG_VERSION,
};
pub use replication::{ReplicationExecutor, ReplicationHandler};

use vstd::prelude::*;
use crate::background::config::{
    ftps_from_legacy, legacy_unsupported_message, newer_version_message,
};
use crate::storage::factory::Backend;
use crate::text::concat2;

verus! {

/// What every message of a backend that could not be set up begins with.
pub open spec fn disabled_prefix() -> Seq<char> {
    "[Background] Replication disabled: "@
}

/// The complaint about a backend settings version, if any.
pub open spec fn version_problem(version: u32) -> Option<Seq<char>> {
    if version > BACKEND_CONFIG_VERSION {
        Some(newer_version_message(version))
    } else if version == 0 {
        Some("backend config version must be at least 1"@)
    } else {
        None
    }
}

/// Sets up the replication backend from the settings: the versioned backend
/// settings when present, otherwise the flat remote-storage settings.
pub fn build_static_backend(config: &BackgroundJobConfig) -> (r: Result<Backend, String>)
    ensures
        config.storage matches Some(v) ==> match version_problem(v.version) {
            Some(p) => r matches Err(m) && m@ == disabled_prefix() + p,
            None => match v.backend {
                BackendConfig::Ftps(c) => r matches Ok(Backend::Ftps(b)) && b.config == c,
                BackendConfig::S3(c) => r matches Ok(Backend::S3(b)) && b.config == c,
            },
        },
        config.storage is None ==> match config.remote_storage {
            Some(l) => if l.backend == StorageBackendType::Ftps {
                r matches Ok(Backend::Ftps(b)) && b.config == ftps_from_legacy(l)
            } else {
                r matches Err(m) && m@ == disabled_prefix() + legacy_unsupported_message(l.backend)
            },
            None => r matches Err(m) && m@ == disabled_prefix() + "no remote storage configured"@,
        },
{
    if let Some(versioned) = &config.storage {
        if let Err(e) = versioned.check_version() {
            return Err(concat2("[Background] Replication disabled: ", e.as_str()));
        }
        return match crate::storage::factory::StorageBackendFactory::build(&versioned.backend) {
            Ok(b) => Ok(b),
            Err(e) => {
                let text = e.message();
                Err(concat2("[Background] Replication disabled: ", text.as_str()))
            },
        };
    }
    if let Some(remote) = &config.remote_storage {
        return match BackendConfig::from_legacy(remote.duplicate()) {
            Ok(cfg) => match crate::storage::factory::StorageBackendFactory::build(&cfg) {
                Ok(b) => Ok(b),
                Err(e) => {
                    let text = e.message();
                    Err(concat2("[Background] Replication disabled: ", text.as_str()))
                },
            },
            Err(e) => Err(concat2("[Background] Replication disabled: ", e.as_str())),
        };
    }
    Err(concat2("[Background] Replication disabled: ", "no remote storage configured"))
}

/// Every version from 1 up to the current one passes the version check, so
/// settings tagged by `VersionedBackendConfig::new` always do; any other
/// version is refused.
pub proof fn law_new_settings_pass_version_check(version: u32)
    ensures
        version_problem(version) is None <==> 1 <= version <= BACKEND_CONFIG_VERSION,
{
}

} // verus!
