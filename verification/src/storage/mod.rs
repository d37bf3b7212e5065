//! Remote storage backends that uploaded files are replicated to.
pub mod traits;
pub mod ftps;

pub use ftps::FtpsBackend;
pub use traits::{check_capability, Capability, StorageError};
pub mod factory;

pub use factory::StorageBackendFactory;
pub mod s3;

pub use s3::S3Backend;
