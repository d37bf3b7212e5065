use rftps::config::{validate_directory, validate_username};

#[test]
fn test_valid_username() {
    let username = "valid123";
    assert_eq!(validate_username(username), Ok(username.to_string()));
}

#[test]
fn test_invalid_username_special_characters() {
    let username = "invalid@username";
    assert_eq!(
        validate_username(username),
        Err("Username must contain only letters and numbers.".to_string())
    );
}

#[test]
fn test_invalid_username_with_space() {
    let username = "invalid username";
    assert_eq!(
        validate_username(username),
        Err("Username must contain only letters and numbers.".to_string())
    );
}

#[test]
fn test_valid_directory() {
    assert_eq!(validate_directory("valid_directory"), Ok("valid_directory".to_string()));
    assert_eq!(validate_directory("my-folder_123"), Ok("my-folder_123".to_string()));
    assert_eq!(validate_directory("./valid/dir"), Ok("./valid/dir".to_string()));
    assert_eq!(validate_directory("C:/Users/ValidDir"), Ok("C:/Users/ValidDir".to_string()));
}

#[test]
fn test_invalid_characters() {
    assert!(validate_directory("invalid|dir").is_err());
    assert!(validate_directory("invalid?dir").is_err());
    assert!(validate_directory("invalid*dir").is_err());
    assert!(validate_directory("<invalid>").is_err());
    assert!(validate_directory("\"quotes\"").is_err());
}

#[test]
fn test_reserved_names() {
    assert!(validate_directory("CON").is_err());
    assert!(validate_directory("com1").is_err());
    assert!(validate_directory("lpt3").is_err());
    assert!(validate_directory("AUX_folder").is_err());
    assert!(validate_directory("backup_LPT2").is_err());
}

#[test]
fn test_case_insensitive_reserved_names() {
    assert!(validate_directory("con").is_err());
    assert!(validate_directory("CoM5").is_err());
    assert!(validate_directory("lPt7").is_err());
}

#[test]
fn test_valid_special_cases() {
    assert_eq!(validate_directory("normal-folder"), Ok("normal-folder".to_string()));
    assert_eq!(validate_directory("123456789"), Ok("123456789".to_string()));
    assert_eq!(validate_directory("folder.name"), Ok("folder.name".to_string()));
    assert_eq!(validate_directory("dir_with_underscore"), Ok("dir_with_underscore".to_string()));
}

#[test]
fn username_accepts_unicode_letters() {
    assert_eq!(validate_username("Jürgen7"), Ok("Jürgen7".to_string()));
    assert!(validate_username("a-b").is_err());
    assert_eq!(validate_username(""), Ok(String::new()));
}

#[test]
fn directory_messages_name_the_path() {
    assert_eq!(
        validate_directory("a<b"),
        Err("Path a<b contains invalid characters".to_string())
    );
    assert_eq!(
        validate_directory("data/nul"),
        Err("Path data/nul contains a reserved name".to_string())
    );
    // The character check comes first.
    assert_eq!(
        validate_directory("CON|x"),
        Err("Path CON|x contains invalid characters".to_string())
    );
}

#[test]
fn directory_reserved_superscript_names() {
    assert!(validate_directory("com\u{b9}").is_err());
    assert!(validate_directory("LPT\u{b3}_dir").is_err());
    assert!(validate_directory("COM").is_ok());
}

#[test]
fn directory_check_ignores_ascii_case() {
    for (a, b) in [("aux_folder", "AUX_FOLDER"), ("Lpt1x", "lPT1X"), ("my-Dir", "MY-dir"), ("a<b", "A<B")] {
        assert_eq!(validate_directory(a).is_ok(), validate_directory(b).is_ok());
    }
    assert_eq!(validate_directory("nul").unwrap_err(), "Path nul contains a reserved name");
    assert!(validate_directory("my-Dir").is_ok());
}
