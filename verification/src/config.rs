//! Command-line settings of the server and the validation of its arguments.
use vstd::prelude::*;
use vstd::utf8::is_ascii_chars;
use crate::text::{ascii_lower, ascii_upper, same_ignoring_ascii_case, 
    any_char_in, char_in, char_is_alphanumeric, chars_of, concat3, contains_chars, contains_seq,
    str_to_uppercase, alphanumeric, upper_text,
};

verus! {

/// The server's command-line settings. `app/` parses them from the command
/// line (its copy carries the parser derive) and converts them into this type.
pub struct Args {
    /// Server address.
    pub address: String,
    /// Port to run the FTP server on.
    pub port: u16,
    /// Directory where uploaded files are stored.
    pub directory: String,
    /// Username of the FTP user.
    pub username: String,
    /// Password of the FTP user.
    pub password: Option<String>,
    /// Whether FTPS is enabled.
    pub enable_ftps: Option<bool>,
    /// Certificate PEM file.
    pub cert_pem: Option<String>,
    /// Key PEM file.
    pub key_pem: Option<String>,
    /// Passive port range, written `first-last`.
    pub passive_ports: Option<String>,
    /// Address announced for passive transfers.
    pub external_ip: Option<String>,
    /// Background job settings file.
    pub config: Option<String>,
}

/// The message given for a username that is not purely alphanumeric.
pub open spec fn username_error() -> Seq<char> {
    "Username must contain only letters and numbers."@
}

/// Every character is a letter or digit in the sense of `char::is_alphanumeric`.
pub open spec fn all_alphanumeric(s: Seq<char>) -> bool {
    forall|i: int| 0 <= i < s.len() ==> alphanumeric(#[trigger] s[i])
}

/// Accepts a username made only of letters and digits and hands it back.
pub fn validate_username(username: &str) -> (r: Result<String, String>)
    ensures
        all_alphanumeric(username@) ==> (r matches Ok(s) && s@ == username@),
        !all_alphanumeric(username@) ==> (r matches Err(e) && e@ == username_error()),
{
    let chars = chars_of(username);
    let mut i: usize = 0;
    while i < chars.len()
        invariant
            chars@ == username@,
            i <= chars.len(),
            forall|k: int| 0 <= k < i ==> alphanumeric(#[trigger] chars@[k]),
        decreases chars.len() - i,
    {
        if !char_is_alphanumeric(chars[i]) {
            return Err("Username must contain only letters and numbers.".to_owned());
        }
        i = i + 1;
    }
    Ok(username.to_owned())
}

/// The characters that a directory argument may not hold.
pub open spec fn invalid_dir_chars() -> Seq<char> {
    seq!['<', '>', '"', '|', '?', '*']
}

/// The reserved device names that may not occur in a directory argument,
/// compared after converting the argument to uppercase.
pub open spec fn reserved_names() -> Seq<Seq<char>> {
    seq![
        "CON"@, "PRN"@, "AUX"@, "NUL"@, "COM0"@, "COM1"@, "COM2"@, "COM3"@, "COM4"@, "COM5"@,
        "COM6"@, "COM7"@, "COM8"@, "COM9"@, "COM\u{b9}"@, "COM\u{b2}"@, "COM\u{b3}"@, "LPT0"@,
        "LPT1"@, "LPT2"@, "LPT3"@, "LPT4"@, "LPT5"@, "LPT6"@, "LPT7"@, "LPT8"@, "LPT9"@,
        "LPT\u{b9}"@, "LPT\u{b2}"@, "LPT\u{b3}"@,
    ]
}

/// Some reserved name occurs in `upper`.
pub open spec fn holds_reserved_name(upper: Seq<char>) -> bool {
    exists|k: int| 0 <= k < reserved_names().len() && contains_seq(upper, #[trigger] reserved_names()[k])
}

/// Accepts a directory argument that holds none of the characters
/// `< > " | ? *` and, in uppercase, no reserved device name; hands it back.
/// The first check is made first, so its message wins.
pub fn validate_directory(directory: &str) -> (r: Result<String, String>)
    ensures
        any_char_in(directory@, invalid_dir_chars()) ==> (r matches Err(e) && e@ == "Path "@
            + directory@ + " contains invalid characters"@),
        !any_char_in(directory@, invalid_dir_chars()) && holds_reserved_name(
            upper_text(directory@),
        ) ==> (r matches Err(e) && e@ == "Path "@ + directory@
            + " contains a reserved name"@),
        !any_char_in(directory@, invalid_dir_chars()) && !holds_reserved_name(
            upper_text(directory@),
        ) ==> (r matches Ok(s) && s@ == directory@),
{
    let invalid: Vec<char> = vec!['<', '>', '"', '|', '?', '*'];
    assert(invalid@ =~= invalid_dir_chars());
    let chars = chars_of(directory);
    let mut i: usize = 0;
    while i < chars.len()
        invariant
            chars@ == directory@,
            invalid@ == invalid_dir_chars(),
            i <= chars.len(),
            forall|k: int| 0 <= k < i ==> !invalid_dir_chars().contains(#[trigger] chars@[k]),
        decreases chars.len() - i,
    {
        if char_in(chars[i], &invalid) {
            return Err(concat3("Path ", directory, " contains invalid characters"));
        }
        i = i + 1;
    }
    assert(!any_char_in(directory@, invalid_dir_chars()));
    let upper_string = str_to_uppercase(directory);
    let upper = chars_of(upper_string.as_str());
    let names: Vec<&str> = vec![
        "CON", "PRN", "AUX", "NUL", "COM0", "COM1", "COM2", "COM3", "COM4", "COM5",
        "COM6", "COM7", "COM8", "COM9", "COM\u{b9}", "COM\u{b2}", "COM\u{b3}", "LPT0",
        "LPT1", "LPT2", "LPT3", "LPT4", "LPT5", "LPT6", "LPT7", "LPT8", "LPT9",
        "LPT\u{b9}", "LPT\u{b2}", "LPT\u{b3}",
    ];
    assert(names@.map_values(|s: &str| s@) =~= reserved_names());
    let mut k: usize = 0;
    while k < names.len()
        invariant
            upper@ == upper_text(directory@),
            !any_char_in(directory@, invalid_dir_chars()),
            names@.map_values(|s: &str| s@) == reserved_names(),
            k <= names.len(),
            forall|j: int| 0 <= j < k ==> !contains_seq(upper@, #[trigger] reserved_names()[j]),
        decreases names.len() - k,
    {
        let name = chars_of(names[k]);
        assert(name@ == reserved_names()[k as int]);
        if contains_chars(&upper, &name) {
            return Err(concat3("Path ", directory, " contains a reserved name"));
        }
        k = k + 1;
    }
    Ok(directory.to_owned())
}

proof fn lemma_upper_ignores_case(a: Seq<char>, b: Seq<char>)
    requires
        is_ascii_chars(a),
        is_ascii_chars(b),
        same_ignoring_ascii_case(a, b),
    ensures
        upper_text(a) == upper_text(b),
        forall|i: int| 0 <= i < a.len() ==> (invalid_dir_chars().contains(#[trigger] a[i])
            <==> invalid_dir_chars().contains(b[i])),
{
    assert forall|i: int| 0 <= i < a.len() implies ascii_upper(#[trigger] a[i]) == ascii_upper(b[i])
        && (invalid_dir_chars().contains(a[i]) <==> invalid_dir_chars().contains(b[i])) by {
        assert(ascii_lower(a[i]) == ascii_lower(b[i]));
        assert(invalid_dir_chars()[0] == '<' && invalid_dir_chars()[1] == '>' && invalid_dir_chars()[2] == '"'
            && invalid_dir_chars()[3] == '|' && invalid_dir_chars()[4] == '?' && invalid_dir_chars()[5] == '*');
    }
    assert(upper_text(a) =~= upper_text(b));
}

/// Directory validation ignores the case of ASCII letters, as its check of
/// reserved names is made on the uppercase form: two ASCII arguments that
/// differ only in case hold invalid characters alike and reserved names
/// alike, so both are accepted or both refused for the same reason.
pub proof fn law_directory_check_ignores_case(a: Seq<char>, b: Seq<char>)
    requires
        is_ascii_chars(a),
        is_ascii_chars(b),
        same_ignoring_ascii_case(a, b),
    ensures
        any_char_in(a, invalid_dir_chars()) == any_char_in(b, invalid_dir_chars()),
        holds_reserved_name(upper_text(a)) == holds_reserved_name(upper_text(b)),
{
    lemma_upper_ignores_case(a, b);
    if any_char_in(a, invalid_dir_chars()) {
        let i = choose|i: int| 0 <= i < a.len() && invalid_dir_chars().contains(#[trigger] a[i]);
        assert(invalid_dir_chars().contains(b[i]));
    }
    if any_char_in(b, invalid_dir_chars()) {
        let i = choose|i: int| 0 <= i < b.len() && invalid_dir_chars().contains(#[trigger] b[i]);
        assert(invalid_dir_chars().contains(a[i]));
    }
}

} // verus!
