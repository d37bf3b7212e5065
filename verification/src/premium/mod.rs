//! The earlier, simpler background job system, kept beside the current one.
pub mod config;
pub mod replication;

pub use config::{BackgroundJobConfig, RemoteStorageConfig, StorageBackendType, UserMapping};
pub use replication::{ReplicationExecutor, ReplicationHandler};
