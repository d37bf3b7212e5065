//! Errors of the remote storage backends and the capabilities they declare.
use vstd::prelude::*;
use crate::text::{concat2, concat3};

verus! {

/// `std::io::Error`, carried through the library unopened.
#[verifier::external_type_specification]
#[verifier::external_body]
pub struct ExIoError(std::io::Error);

/// Trusted: `<std::io::Error as Display>::fmt` through `to_string`. The text
/// depends on the operating system's message for the error, so nothing is
/// stated of it.
#[verifier::external_body]
pub(crate) fn io_error_text(e: &std::io::Error) -> String {
    e.to_string()
}

/// Why a storage operation failed.
#[derive(Debug)]
pub enum StorageError {
    Connection(String),
    Auth(String),
    Transfer(String),
    Io(std::io::Error),
    NotFound(String),
    PermissionDenied(String),
    Config(String),
}

/// The operations after which trying again may succeed.
pub open spec fn storage_retryable(e: StorageError) -> bool {
    e is Connection || e is Transfer || e is Io
}

/// The text that the error displays, for every variant but `Io`, whose
/// detail comes from the operating system.
pub open spec fn storage_message(e: StorageError) -> Seq<char> {
    match e {
        StorageError::Connection(m) => "Connection failed: "@ + m@,
        StorageError::Auth(m) => "Authentication failed: "@ + m@,
        StorageError::Transfer(m) => "Transfer failed: "@ + m@,
        StorageError::Io(_) => "IO error: "@,
        StorageError::NotFound(m) => "Not found: "@ + m@,
        StorageError::PermissionDenied(m) => "Permission denied: "@ + m@,
        StorageError::Config(m) => "Configuration error: "@ + m@,
    }
}

impl StorageError {
    /// Connection, transfer and I/O failures are worth retrying; the others
    /// are permanent.
    pub fn is_retryable(&self) -> (r: bool)
        ensures
            r == storage_retryable(*self),
    {
        match self {
            StorageError::Connection(_) | StorageError::Transfer(_) | StorageError::Io(_) => true,
            _ => false,
        }
    }

    /// The text that the error displays. For `Io` it is `IO error: ` followed
    /// by the operating system's text for the error.
    pub fn message(&self) -> (s: String)
        ensures
            !(*self is Io) ==> s@ == storage_message(*self),
            *self is Io ==> s@.subrange(0, 10) == storage_message(*self) && s@.len() >= 10,
    {
        match self {
            StorageError::Connection(m) => concat2("Connection failed: ", m.as_str()),
            StorageError::Auth(m) => concat2("Authentication failed: ", m.as_str()),
            StorageError::Transfer(m) => concat2("Transfer failed: ", m.as_str()),
            StorageError::Io(e) => {
                let detail = io_error_text(e);
                let s = concat2("IO error: ", detail.as_str());
                proof {
                    reveal_strlit("IO error: ");
                    assert(s@.subrange(0, 10) =~= "IO error: "@);
                }
                s
            },
            StorageError::NotFound(m) => concat2("Not found: ", m.as_str()),
            StorageError::PermissionDenied(m) => concat2("Permission denied: ", m.as_str()),
            StorageError::Config(m) => concat2("Configuration error: ", m.as_str()),
        }
    }
}

/// An optional operation that a backend may declare.
#[derive(Debug, Clone, Copy, PartialEq, Eq, Hash, Structural)]
pub enum Capability {
    Rename,
    Mkdir,
}

/// The lower-case name of an optional operation, as the messages spell it.
pub open spec fn capability_word(c: Capability) -> Seq<char> {
    match c {
        Capability::Rename => "rename"@,
        Capability::Mkdir => "mkdir"@,
    }
}

/// The message given when a backend does not offer an operation.
pub open spec fn unsupported_message(c: Capability, backend: Seq<char>) -> Seq<char> {
    capability_word(c) + " not supported by backend '"@ + backend + "'"@
}

/// The configuration error for an operation that `backend` does not offer.
pub fn unsupported_error(capability: Capability, backend: &str) -> (e: StorageError)
    ensures
        e matches StorageError::Config(m) && m@ == unsupported_message(capability, backend@),
{
    let word = match capability {
        Capability::Rename => "rename",
        Capability::Mkdir => "mkdir",
    };
    let head = concat3(word, " not supported by backend '", backend);
    StorageError::Config(concat2(head.as_str(), "'"))
}

/// Decides whether an optional operation may go ahead on a backend.
/// `declared` is `None` when the backend declares no capabilities at all,
/// and otherwise whether it declares `capability`.
pub fn check_capability(capability: Capability, backend: &str, declared: Option<bool>) -> (r:
    Result<(), StorageError>)
    ensures
        declared == Some(true) ==> r is Ok,
        declared != Some(true) ==> (r matches Err(StorageError::Config(m)) && m@
            == unsupported_message(capability, backend@)),
{
    match declared {
        Some(true) => Ok(()),
        _ => Err(unsupported_error(capability, backend)),
    }
}

/// A remote store that uploaded files are replicated to. The transfers
/// themselves are I/O and belong to `app/`; the library knows a backend by
/// its name and by the optional operations it declares.
pub trait StorageBackend {
    /// The backend's name, as messages spell it.
    fn name(&self) -> &str;

    /// The optional operations the backend declares, if it declares any;
    /// none by default.
    fn capabilities(&self) -> (r: Option<&dyn BackendCapabilities>)
        default_ensures
            r is None,
    {
        None
    }
}

/// The optional operations a backend offers.
pub trait BackendCapabilities {
    /// Whether the backend offers `capability`; none by default.
    fn supports(&self, capability: Capability) -> (r: bool)
        default_ensures
            !r,
    {
        false
    }
}

} // verus!
