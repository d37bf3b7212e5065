//! What happens on the FTP server, as events for the background jobs.
use vstd::prelude::*;

verus! {

/// Something that happened on the server. Timestamps are nanoseconds since
/// the UNIX epoch.
#[derive(Debug, Clone)]
pub enum FtpEvent {
    LoggedIn { username: String },
    LoggedOut { username: String },
    FileUploaded { username: String, path: String, timestamp: u128 },
    FileDownloaded { username: String, path: String },
    DirCreated { username: String, path: String },
    DirRemoved { username: String, path: String },
    Renamed { username: String, from: String, to: String },
    Deleted { username: String, path: String },
    RelayStatus { status: String, message: Option<String> },
    Replication { path: String, ok: bool, error: Option<String> },
}

/// The snake-case name of an event's kind.
pub open spec fn event_name_spec(e: FtpEvent) -> Seq<char> {
    match e {
        FtpEvent::LoggedIn { .. } => "logged_in"@,
        FtpEvent::LoggedOut { .. } => "logged_out"@,
        FtpEvent::FileUploaded { .. } => "file_uploaded"@,
        FtpEvent::FileDownloaded { .. } => "file_downloaded"@,
        FtpEvent::DirCreated { .. } => "dir_created"@,
        FtpEvent::DirRemoved { .. } => "dir_removed"@,
        FtpEvent::Renamed { .. } => "renamed"@,
        FtpEvent::Deleted { .. } => "deleted"@,
        FtpEvent::RelayStatus { .. } => "relay_status"@,
        FtpEvent::Replication { .. } => "replication"@,
    }
}

impl FtpEvent {
    /// The snake-case name of the event's kind.
    pub fn event_name(&self) -> (s: &'static str)
        ensures
            s@ == event_name_spec(*self),
    {
        match self {
            FtpEvent::LoggedIn { .. } => "logged_in",
            FtpEvent::LoggedOut { .. } => "logged_out",
            FtpEvent::FileUploaded { .. } => "file_uploaded",
            FtpEvent::FileDownloaded { .. } => "file_downloaded",
            FtpEvent::DirCreated { .. } => "dir_created",
            FtpEvent::DirRemoved { .. } => "dir_removed",
            FtpEvent::Renamed { .. } => "renamed",
            FtpEvent::Deleted { .. } => "deleted",
            FtpEvent::RelayStatus { .. } => "relay_status",
            FtpEvent::Replication { .. } => "replication",
        }
    }
}

} // verus!
