use rftps::config::Args;
use rftps::server::{
    ftps_files, parse_ipv4, passive_host, passive_range, PassiveHost, ServerSettings,
};
use rftps::utils::parse_passive_ports;

fn args() -> Args {
    Args {
        address: "0.0.0.0".into(),
        port: 21212,
        directory: "./rftps".into(),
        username: "rftps".into(),
        password: None,
        enable_ftps: None,
        cert_pem: None,
        key_pem: None,
        passive_ports: None,
        external_ip: None,
        config: None,
    }
}

#[test]
fn ipv4_parsing() {
    assert_eq!(parse_ipv4("192.168.1.100"), Some([192, 168, 1, 100]));
    assert_eq!(parse_ipv4("0.0.0.0"), Some([0, 0, 0, 0]));
    assert_eq!(parse_ipv4("255.255.255.255"), Some([255, 255, 255, 255]));
    assert_eq!(parse_ipv4("256.1.1.1"), None);
    assert_eq!(parse_ipv4("01.1.1.1"), None);
    assert_eq!(parse_ipv4("1.1.1"), None);
    assert_eq!(parse_ipv4("1.1.1.1."), None);
    assert_eq!(parse_ipv4("1..1.1"), None);
    assert_eq!(parse_ipv4("a.b.c.d"), None);
    assert_eq!(parse_ipv4("+1.1.1.1"), None);
    assert_eq!(parse_ipv4(""), None);
    assert_eq!(parse_ipv4("1.2.3.04"), None);
    assert_eq!(parse_ipv4("1.2.3.4.5"), None);
    assert_eq!(parse_ipv4(" 1.2.3.4"), None);
    assert_eq!(parse_ipv4("1.2.3.1000"), None);
}

#[test]
fn passive_settings() {
    assert_eq!(passive_host("10.0.0.5"), PassiveHost::Ip([10, 0, 0, 5]));
    assert_eq!(passive_host("ftp.example.com"), PassiveHost::Name("ftp.example.com".into()));
    assert_eq!(passive_range(None), (50000, 65535));
    assert_eq!(passive_range(Some((1000, 1010))), (1000, 1010));
}

#[test]
fn ftps_pair() {
    assert_eq!(
        ftps_files(true, Some("c".into()), Some("k".into())),
        Some(("c".to_string(), "k".to_string()))
    );
    assert_eq!(ftps_files(false, Some("c".into()), Some("k".into())), None);
    assert_eq!(ftps_files(true, None, Some("k".into())), None);
}

#[test]
fn settings_from_arguments() {
    let s = ServerSettings::from_args(args(), true, false);
    assert!(s.enable_ftps);
    assert_eq!(s.password.len(), 10);
    assert_eq!(s.passive_ports, None);
    assert_eq!(s.cert_path, None);
    assert_eq!(s.username, "rftps");
    assert_eq!(s.port, 21212);

    let s = ServerSettings::from_args(args(), true, true);
    assert_eq!(s.cert_path.as_deref(), Some("cert.pem"));
    assert_eq!(s.key_path.as_deref(), Some("key.pem"));

    let mut a = args();
    a.password = Some("secret123".into());
    a.enable_ftps = Some(false);
    a.passive_ports = Some("50000-50100".into());
    a.external_ip = Some("1.2.3.4".into());
    a.cert_pem = Some("/etc/c.pem".into());
    let s = ServerSettings::from_args(a, true, true);
    assert_eq!(s.password, "secret123");
    assert!(!s.enable_ftps);
    assert_eq!(s.passive_ports, Some((50000, 50100)));
    assert_eq!(s.external_ip.as_deref(), Some("1.2.3.4"));
    assert_eq!(s.cert_path.as_deref(), Some("/etc/c.pem"));
    assert_eq!(s.key_path, None);
}

#[test]
fn passive_range_round_trip() {
    for (a, b) in [(0u16, 0u16), (50000, 65535), (7, 12345)] {
        assert_eq!(parse_passive_ports(&format!("{}-{}", a, b)), Some((a, b)));
    }
}
