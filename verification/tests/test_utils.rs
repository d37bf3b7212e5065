use rftps::auth::StaticAuthenticator;
use rftps::generate_random_string;
use rftps::utils::{choose_certificates, choose_password, parse_passive_ports, parse_u16_chars};

#[test]
fn passive_port_ranges() {
    assert_eq!(parse_passive_ports("50000-50100"), Some((50000, 50100)));
    assert_eq!(parse_passive_ports("+1-+2"), Some((1, 2)));
    assert_eq!(parse_passive_ports("0-65535"), Some((0, 65535)));
    assert_eq!(parse_passive_ports("10-5"), Some((10, 5)));
    assert_eq!(parse_passive_ports("0-65536"), None);
    assert_eq!(parse_passive_ports("50000"), None);
    assert_eq!(parse_passive_ports("1-2-3"), None);
    assert_eq!(parse_passive_ports("-2"), None);
    assert_eq!(parse_passive_ports("a-b"), None);
    assert_eq!(parse_passive_ports(" 1-2"), None);
    assert_eq!(parse_passive_ports(""), None);
}

#[test]
fn u16_parsing_of_a_range() {
    let v: Vec<char> = "x00042y".chars().collect();
    assert_eq!(parse_u16_chars(&v, 1, 6), Some(42));
    assert_eq!(parse_u16_chars(&v, 1, 1), None);
    assert_eq!(parse_u16_chars(&v, 0, 3), None);
    let plus: Vec<char> = "+".chars().collect();
    assert_eq!(parse_u16_chars(&plus, 0, 1), None);
}

#[test]
fn password_choice() {
    assert_eq!(choose_password(Some("secret".into())), "secret");
    let generated = choose_password(None);
    assert_eq!(generated.len(), 10);
    assert!(generated.chars().all(|c| c.is_ascii_alphanumeric()));
    let from_empty = choose_password(Some(String::new()));
    assert_eq!(from_empty.len(), 10);
}

#[test]
fn random_strings() {
    assert_eq!(generate_random_string(0), "");
    let s = generate_random_string(32);
    assert_eq!(s.chars().count(), 32);
    assert!(s.chars().all(|c| c.is_ascii_alphanumeric()));
}

#[test]
fn certificate_choice() {
    let some = |s: &str| Some(s.to_string());
    assert_eq!(
        choose_certificates(true, None, None, false, true),
        (some("cert.pem"), some("key.pem"))
    );
    assert_eq!(
        choose_certificates(true, some("c"), None, false, true),
        (some("cert.pem"), some("key.pem"))
    );
    assert_eq!(choose_certificates(true, None, None, false, false), (None, None));
    assert_eq!(choose_certificates(false, None, None, false, true), (None, None));
    assert_eq!(
        choose_certificates(true, some("c"), some("k"), true, true),
        (some("c"), some("k"))
    );
    assert_eq!(
        choose_certificates(true, some("c"), some("k"), false, true),
        (some("c"), some("k"))
    );
}

#[test]
fn static_login() {
    let auth = StaticAuthenticator { username: "alice".into(), password: "pw".into() };
    assert!(auth.accepts("alice", Some("pw")));
    assert!(!auth.accepts("alice", Some("PW")));
    assert!(!auth.accepts("bob", Some("pw")));
    assert!(!auth.accepts("alice", None));
}
