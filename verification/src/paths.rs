//! What std's path functions give for texts. Their results depend on the
//! platform's separators, so they are named here, not stated.
use vstd::prelude::*;

verus! {

/// What `std::path::Path::join` gives for a base folder and a relative path.
pub uninterp spec fn joined_path(base: Seq<char>, rel: Seq<char>) -> Seq<char>;

/// What `std::path::Path::parent` gives for a path, as text; empty when it
/// has no parent.
pub uninterp spec fn std_path_parent(p: Seq<char>) -> Seq<char>;

/// Trusted: `std::path::Path::join`, taken back to text with
/// `to_string_lossy`. Which text that is for given paths is named above,
/// not stated.
#[verifier::external_body]
pub(crate) fn path_join(base: &str, rel: &str) -> (r: String)
    ensures
        r@ == joined_path(base@, rel@),
{
    std::path::Path::new(base).join(rel).to_string_lossy().into_owned()
}

/// Trusted: `std::path::Path::parent`, the path without its last component,
/// or the empty text when there is none. Which text that is for a given path
/// is named above, not stated.
#[verifier::external_body]
pub(crate) fn path_parent(p: &str) -> (r: String)
    ensures
        r@ == std_path_parent(p@),
{
    std::path::Path::new(p).parent().map(|q| q.to_string_lossy().into_owned()).unwrap_or_default()
}

} // verus!
