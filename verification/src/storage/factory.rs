//! Chooses the backend that a backend configuration describes.
use vstd::prelude::*;
use crate::background::config::BackendConfig;
use crate::storage::ftps::FtpsBackend;
use crate::storage::s3::S3Backend;
use crate::storage::traits::{BackendCapabilities, Capability, StorageBackend, StorageError};

verus! {

/// Builds storage backends from their settings.
pub struct StorageBackendFactory;

/// A backend built from its settings.
pub enum Backend {
    Ftps(FtpsBackend),
    S3(S3Backend),
}

impl Backend {
    /// The backend's name: `ftp` or `s3`.
    pub fn name(&self) -> (n: &'static str)
        ensures
            *self is Ftps ==> n@ == "ftp"@,
            *self is S3 ==> n@ == "s3"@,
    {
        match self {
            Backend::Ftps(b) => b.name(),
            Backend::S3(b) => b.name(),
        }
    }

    /// Whether the backend offers an optional operation: FTP offers both,
    /// S3 only renaming.
    pub fn supports(&self, capability: Capability) -> (r: bool)
        ensures
            *self is Ftps ==> r,
            *self is S3 ==> r == (capability == Capability::Rename),
    {
        match self {
            Backend::Ftps(b) => b.supports(capability),
            Backend::S3(b) => b.supports(capability),
        }
    }
}

impl StorageBackend for Backend {
    fn name(&self) -> (n: &str)
        ensures
            *self is Ftps ==> n@ == "ftp"@,
            *self is S3 ==> n@ == "s3"@,
    {
        Backend::name(self)
    }

    fn capabilities(&self) -> (r: Option<&dyn BackendCapabilities>)
        ensures
            r is Some,
    {
        Some(self)
    }
}

impl BackendCapabilities for Backend {
    fn supports(&self, capability: Capability) -> (r: bool)
        ensures
            *self is Ftps ==> r,
            *self is S3 ==> r == (capability == Capability::Rename),
    {
        Backend::supports(self, capability)
    }
}

impl StorageBackendFactory {
    /// The backend that the settings describe: FTP/FTPS or S3.
    pub fn build(config: &BackendConfig) -> (r: Result<Backend, StorageError>)
        ensures
            config matches BackendConfig::Ftps(c) ==> (r matches Ok(Backend::Ftps(b)) && b.config == c),
            config matches BackendConfig::S3(c) ==> (r matches Ok(Backend::S3(b)) && b.config == c),
    {
        match config {
            BackendConfig::Ftps(cfg) => Ok(Backend::Ftps(FtpsBackend::new(cfg.duplicate()))),
            BackendConfig::S3(cfg) => Ok(Backend::S3(S3Backend::new(cfg.duplicate()))),
        }
    }
}

} // verus!
