use rftps::event::FtpEvent;
use rftps::logger::{data_event, presence_event, DataAction};

#[test]
fn data_events_and_lines() {
    let (e, line) = data_event(DataAction::MadeDir { path: "/a".into() }, "alice", 0);
    assert_eq!(line, "User alice created directory /a");
    assert!(matches!(e, FtpEvent::DirCreated { ref username, ref path } if username == "alice" && path == "/a"));

    let (e, line) = data_event(DataAction::RemovedDir { path: "/a".into() }, "alice", 0);
    assert_eq!(line, "User alice deleted directory /a");
    assert_eq!(e.event_name(), "dir_removed");

    let (e, line) = data_event(DataAction::Got { path: "/f.txt".into() }, "bob", 0);
    assert_eq!(line, "User bob downloaded file /f.txt");
    assert_eq!(e.event_name(), "file_downloaded");

    let (e, line) = data_event(DataAction::Put { path: "/documents/file.txt".into() }, "rftps", 42);
    assert_eq!(line, "User rftps uploaded file /documents/file.txt");
    match e {
        FtpEvent::FileUploaded { username, path, timestamp } => {
            assert_eq!(username, "rftps");
            assert_eq!(path, "/documents/file.txt");
            assert_eq!(timestamp, 42);
        }
        _ => panic!("expected an upload event"),
    }

    let (e, line) = data_event(DataAction::Renamed { from: "/a".into(), to: "/b".into() }, "alice", 0);
    assert_eq!(line, "User alice renamed /a to /b");
    assert!(matches!(e, FtpEvent::Renamed { ref from, ref to, .. } if from == "/a" && to == "/b"));

    let (e, line) = data_event(DataAction::Deleted { path: "/x".into() }, "alice", 0);
    assert_eq!(line, "User alice deleted /x");
    assert_eq!(e.event_name(), "deleted");
}

#[test]
fn presence_events_and_lines() {
    let (e, line) = presence_event(true, "rftps");
    assert_eq!(line, "User rftps logged in");
    assert!(matches!(e, FtpEvent::LoggedIn { ref username } if username == "rftps"));
    let (e, line) = presence_event(false, "rftps");
    assert_eq!(line, "User rftps logged out");
    assert_eq!(e.event_name(), "logged_out");
}
