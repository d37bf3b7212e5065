//! What the FTP server's listeners make of its notifications: the event
//! published on the bus and the line printed. `app/` receives the
//! notifications from the server and hands them over as plain values.
use vstd::prelude::*;
use crate::event::types::FtpEvent;
use crate::text::{concat2, concat3};

verus! {

/// A file-system action the FTP server reports, with the paths it names.
#[derive(Debug, Clone)]
pub enum DataAction {
    MadeDir { path: String },
    RemovedDir { path: String },
    Got { path: String },
    Put { path: String },
    Renamed { from: String, to: String },
    Deleted { path: String },
}

/// Whether `e` is the event published for `action` by `user`, an upload
/// being stamped with `now`.
pub open spec fn is_data_event(e: FtpEvent, action: DataAction, user: Seq<char>, now: u128) -> bool {
    match action {
        DataAction::MadeDir { path } => e matches FtpEvent::DirCreated { username: u, path: p } && u@
            == user && p@ == path@,
        DataAction::RemovedDir { path } => e matches FtpEvent::DirRemoved { username: u, path: p } && u@
            == user && p@ == path@,
        DataAction::Got { path } => e matches FtpEvent::FileDownloaded { username: u, path: p } && u@
            == user && p@ == path@,
        DataAction::Put { path } => e matches FtpEvent::FileUploaded { username: u, path: p, timestamp: t }
            && u@ == user && p@ == path@ && t == now,
        DataAction::Renamed { from, to } => e matches FtpEvent::Renamed { username: u, from: f, to: t }
            && u@ == user && f@ == from@ && t@ == to@,
        DataAction::Deleted { path } => e matches FtpEvent::Deleted { username: u, path: p } && u@ == user
            && p@ == path@,
    }
}

/// The line printed for `action` by `user`.
pub open spec fn data_line(action: DataAction, user: Seq<char>) -> Seq<char> {
    match action {
        DataAction::MadeDir { path } => "User "@ + user + " created directory "@ + path@,
        DataAction::RemovedDir { path } => "User "@ + user + " deleted directory "@ + path@,
        DataAction::Got { path } => "User "@ + user + " downloaded file "@ + path@,
        DataAction::Put { path } => "User "@ + user + " uploaded file "@ + path@,
        DataAction::Renamed { from, to } => "User "@ + user + " renamed "@ + from@ + " to "@ + to@,
        DataAction::Deleted { path } => "User "@ + user + " deleted "@ + path@,
    }
}

/// The event and the line for a file-system action by `username`; an
/// upload is stamped with `now`, in nanoseconds since the UNIX epoch.
pub fn data_event(action: DataAction, username: &str, now: u128) -> (r: (FtpEvent, String))
    ensures
        is_data_event(r.0, action, username@, now),
        r.1@ == data_line(action, username@),
{
    let user = username.to_owned();
    match action {
        DataAction::MadeDir { path } => {
            let line = user_line(username, " created directory ", path.as_str());
            (FtpEvent::DirCreated { username: user, path }, line)
        },
        DataAction::RemovedDir { path } => {
            let line = user_line(username, " deleted directory ", path.as_str());
            (FtpEvent::DirRemoved { username: user, path }, line)
        },
        DataAction::Got { path } => {
            let line = user_line(username, " downloaded file ", path.as_str());
            (FtpEvent::FileDownloaded { username: user, path }, line)
        },
        DataAction::Put { path } => {
            let line = user_line(username, " uploaded file ", path.as_str());
            (FtpEvent::FileUploaded { username: user, path, timestamp: now }, line)
        },
        DataAction::Renamed { from, to } => {
            let head = user_line(username, " renamed ", from.as_str());
            let line = concat3(head.as_str(), " to ", to.as_str());
            (FtpEvent::Renamed { username: user, from, to }, line)
        },
        DataAction::Deleted { path } => {
            let line = user_line(username, " deleted ", path.as_str());
            (FtpEvent::Deleted { username: user, path }, line)
        },
    }
}

/// `User <user><verb><object>`.
fn user_line(user: &str, verb: &str, object: &str) -> (s: String)
    ensures
        s@ == "User "@ + user@ + verb@ + object@,
{
    let head = concat2("User ", user);
    concat3(head.as_str(), verb, object)
}

/// The event and the line for a login (`logged_in`) or a logout.
pub fn presence_event(logged_in: bool, username: &str) -> (r: (FtpEvent, String))
    ensures
        logged_in ==> (r.0 matches FtpEvent::LoggedIn { username: u } && u@ == username@ && r.1@
            == "User "@ + username@ + " logged in"@),
        !logged_in ==> (r.0 matches FtpEvent::LoggedOut { username: u } && u@ == username@ && r.1@
            == "User "@ + username@ + " logged out"@),
{
    if logged_in {
        (FtpEvent::LoggedIn { username: username.to_owned() }, concat3("User ", username, " logged in"))
    } else {
        (FtpEvent::LoggedOut { username: username.to_owned() }, concat3("User ", username, " logged out"))
    }
}

} // verus!
