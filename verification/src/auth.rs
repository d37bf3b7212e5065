//! The single-user login check of the FTP server.
use vstd::prelude::*;
use crate::text::same_text;

verus! {

/// Accepts exactly one user name with exactly one password. `app/` answers
/// the FTP server's login requests with it.
#[derive(Debug)]
pub struct StaticAuthenticator {
    pub username: String,
    pub password: String,
}

impl StaticAuthenticator {
    /// A login succeeds when a password was given and both the user name and
    /// the password are the configured ones.
    pub fn accepts(&self, username: &str, password: Option<&str>) -> (ok: bool)
        ensures
            ok == (password matches Some(p) && p@ == self.password@ && username@ == self.username@),
    {
        match password {
            Some(p) => same_text(username, self.username.as_str()) && same_text(p, self.password.as_str()),
            None => false,
        }
    }
}

} // verus!
