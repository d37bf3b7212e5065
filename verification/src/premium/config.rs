//! The settings of the earlier, simpler background job system.
use vstd::prelude::*;
use crate::background::config::{mapped_folder, users_distinct, UserMapping as MappingRule};
use crate::text::{concat3, entries_of, find_entry, find_first, lemma_find_distinct};

verus! {

/// Settings of the background job system. Durations are in nanoseconds.
pub struct BackgroundJobConfig {
    pub enabled: bool,
    pub max_parallel_jobs: usize,
    pub retry_delay_base: u128,
    pub max_retries: u32,
    pub queue_capacity: usize,
    pub remote_storage: Option<RemoteStorageConfig>,
    pub user_mapping: UserMapping,
}

impl Default for BackgroundJobConfig {
    /// Disabled; two workers, three retries five seconds apart, room for a
    /// thousand queued jobs, no remote storage, paths prefixed by user name.
    fn default() -> (c: Self)
        ensures
            !c.enabled,
            c.max_parallel_jobs == 2,
            c.retry_delay_base == 5_000_000_000u128,
            c.max_retries == 3,
            c.queue_capacity == 1000,
            c.remote_storage is None,
            c.user_mapping is PrefixUserName,
    {
        BackgroundJobConfig {
            enabled: false,
            max_parallel_jobs: 2,
            retry_delay_base: 5_000_000_000u128,
            max_retries: 3,
            queue_capacity: 1000,
            remote_storage: None,
            user_mapping: UserMapping::PrefixUserName,
        }
    }
}

/// Where replicated files go.
pub struct RemoteStorageConfig {
    pub backend: StorageBackendType,
    pub host: String,
    pub port: Option<u16>,
    pub username: String,
    pub password: String,
    pub path_prefix: String,
    pub use_ssl: bool,
    pub ca_cert: Option<String>,
}

/// The protocols a remote target may speak.
#[derive(Debug, Clone, Copy, PartialEq, Eq, Structural)]
pub enum StorageBackendType {
    Ftps,
    Sftp,
    Https,
    S3,
}

/// Where a user's uploads go on the remote side.
pub enum UserMapping {
    /// Under a folder named after the user.
    PrefixUserName,
    /// Under one fixed folder, whoever uploads.
    FixedPath(String),
    /// Under the folder the list names for the user, or the user's name
    /// when the list names none. Each user appears at most once
    /// (`users_distinct`).
    UserMap(Vec<(String, String)>),
}

/// The remote folder that a user's uploads go under.
pub open spec fn folder_for(m: UserMapping, username: Seq<char>) -> Seq<char> {
    match m {
        UserMapping::PrefixUserName => username,
        UserMapping::FixedPath(prefix) => prefix@,
        UserMapping::UserMap(v) => match find_first(entries_of(v@), username) {
            Some(folder) => folder,
            None => username,
        },
    }
}

impl UserMapping {
    /// The remote path for a file a user uploaded: the mapped folder, a
    /// slash, then the file's path.
    pub fn resolve(&self, username: &str, path: &str) -> (r: String)
        ensures
            r@ == folder_for(*self, username@) + "/"@ + path@,
    {
        match self {
            UserMapping::PrefixUserName => concat3(username, "/", path),
            UserMapping::FixedPath(prefix) => concat3(prefix.as_str(), "/", path),
            UserMapping::UserMap(map) => match find_entry(map, username) {
                Some(i) => concat3(map[i].1.as_str(), "/", path),
                None => concat3(username, "/", path),
            },
        }
    }
}

/// The earlier mapping and the current one send every upload to the same
/// remote path.
pub proof fn law_mappings_agree(m: UserMapping, username: Seq<char>)
    ensures
        folder_for(m, username) == mapped_folder(
            match m {
                UserMapping::PrefixUserName => MappingRule::PrefixUserName,
                UserMapping::FixedPath(p) => MappingRule::FixedPath(p),
                UserMapping::UserMap(v) => MappingRule::UserMap(v),
            },
            username,
        ),
{
}

/// A user map with each user listed at most once works as a map: a listed
/// user's uploads go under the folder listed for that user, wherever the
/// entry stands in the list, and an unlisted user's under their own name.
pub proof fn law_user_map_is_a_map(v: Seq<(String, String)>, m: UserMapping, username: Seq<char>, folder: Seq<char>)
    requires
        m matches UserMapping::UserMap(w) && w@ == v,
        users_distinct(v),
    ensures
        entries_of(v).contains((username, folder)) ==> folder_for(m, username) == folder,
        (forall|i: int| 0 <= i < v.len() ==> (#[trigger] v[i]).0@ != username) ==> folder_for(m, username) == username,
{
    lemma_find_distinct(entries_of(v), username, folder);
    if forall|i: int| 0 <= i < v.len() ==> (#[trigger] v[i]).0@ != username {
        assert forall|i: int| 0 <= i < entries_of(v).len() implies (#[trigger] entries_of(v)[i]).0 != username by {
            assert(v[i].0@ != username);
        }
    }
}

} // verus!
