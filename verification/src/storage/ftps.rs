//! The FTP/FTPS backend's own logic: where it connects, which remote paths
//! it writes and which folders it creates. `app/` holds the connection.
use vstd::prelude::*;
use crate::background::config::FtpsConfig;
use crate::paths::{path_parent, std_path_parent};
use crate::storage::traits::{BackendCapabilities, Capability, StorageBackend, StorageError};
use crate::text::{chars_of, concat2, concat3, copy_opt_string, decimal, string_of, u64_to_decimal};

verus! {

/// A backend that replicates to an FTP or FTPS server.
pub struct FtpsBackend {
    pub config: FtpsConfig,
}

/// `s` without any trailing `c`.
pub open spec fn trim_end_char(s: Seq<char>, c: char) -> Seq<char>
    decreases s.len(),
{
    if s.len() > 0 && s.last() == c {
        trim_end_char(s.drop_last(), c)
    } else {
        s
    }
}

/// The string without any trailing `c`.
pub fn trim_end_matches_char(s: &str, c: char) -> (r: String)
    ensures
        r@ == trim_end_char(s@, c),
{
    let chars = chars_of(s);
    let mut n: usize = chars.len();
    proof {
        assert(chars@.subrange(0, n as int) =~= s@);
    }
    while n > 0 && chars[n - 1] == c
        invariant
            n <= chars@.len(),
            chars@ == s@,
            trim_end_char(s@, c) == trim_end_char(chars@.subrange(0, n as int), c),
        decreases n,
    {
        proof {
            assert(chars@.subrange(0, n as int).drop_last() =~= chars@.subrange(0, n - 1));
        }
        n = n - 1;
    }
    let mut kept: Vec<char> = Vec::new();
    let mut i: usize = 0;
    while i < n
        invariant
            n <= chars@.len(),
            i <= n,
            kept@ == chars@.subrange(0, i as int),
        decreases n - i,
    {
        kept.push(chars[i]);
        i = i + 1;
    }
    string_of(&kept)
}

/// The non-empty runs of characters between `/` separators, continuing a
/// run `cur` that has already begun.
pub open spec fn segments_from(s: Seq<char>, cur: Seq<char>) -> Seq<Seq<char>>
    decreases s.len(),
{
    if s.len() == 0 {
        if cur.len() == 0 { seq![] } else { seq![cur] }
    } else if s[0] == '/' {
        (if cur.len() == 0 { seq![] } else { seq![cur] }) + segments_from(s.drop_first(), seq![])
    } else {
        segments_from(s.drop_first(), cur.push(s[0]))
    }
}

/// The non-empty components of a slash-separated path.
pub open spec fn path_segments(s: Seq<char>) -> Seq<Seq<char>> {
    segments_from(s, seq![])
}

/// The folder made of the first `k` components, each after a slash.
pub open spec fn rooted_prefix(segs: Seq<Seq<char>>, k: int) -> Seq<char>
    decreases k,
{
    if k <= 0 {
        seq![]
    } else {
        rooted_prefix(segs, k - 1) + seq!['/'] + segs[k - 1]
    }
}

proof fn lemma_segments_step(s: Seq<char>, i: int, cur: Seq<char>)
    requires
        0 <= i < s.len(),
    ensures
        segments_from(s.subrange(i, s.len() as int), cur) == (if s[i] == '/' {
            (if cur.len() == 0 { seq![] } else { seq![cur] }) + segments_from(s.subrange(i + 1, s.len() as int), seq![])
        } else {
            segments_from(s.subrange(i + 1, s.len() as int), cur.push(s[i]))
        }),
{
    assert(s.subrange(i, s.len() as int).drop_first() =~= s.subrange(i + 1, s.len() as int));
}

/// The components of a slash-separated path, empty ones left out.
pub fn split_segments(path: &str) -> (r: Vec<String>)
    ensures
        r@.len() == path_segments(path@).len(),
        forall|k: int| 0 <= k < r@.len() ==> (#[trigger] r@[k])@ == path_segments(path@)[k],
{
    let chars = chars_of(path);
    let n = chars.len();
    let mut out: Vec<String> = Vec::new();
    let mut cur: Vec<char> = Vec::new();
    let ghost done: Seq<Seq<char>> = seq![];
    let mut i: usize = 0;
    proof {
        assert(chars@.subrange(0, n as int) =~= chars@);
        assert(done + segments_from(chars@, cur@) =~= segments_from(chars@, cur@));
        assert(cur@ =~= Seq::<char>::empty());
    }
    while i < n
        invariant
            chars@ == path@,
            n == chars@.len(),
            i <= n,
            out@.len() == done.len(),
            forall|k: int| 0 <= k < out@.len() ==> (#[trigger] out@[k])@ == done[k],
            path_segments(path@) == done + segments_from(chars@.subrange(i as int, n as int), cur@),
        decreases n - i,
    {
        proof {
            lemma_segments_step(chars@, i as int, cur@);
        }
        if chars[i] == '/' {
            if cur.len() > 0 {
                let seg = string_of(&cur);
                out.push(seg);
                proof {
                    assert(done + (seq![cur@] + segments_from(chars@.subrange(i + 1, n as int), seq![]))
                        =~= done.push(cur@) + segments_from(chars@.subrange(i + 1, n as int), seq![]));
                    done = done.push(cur@);
                }
            } else {
                proof {
                    assert(Seq::<Seq<char>>::empty() + segments_from(chars@.subrange(i + 1, n as int), seq![])
                        =~= segments_from(chars@.subrange(i + 1, n as int), seq![]));
                }
            }
            cur = Vec::new();
            proof {
                assert(cur@ =~= Seq::<char>::empty());
            }
        } else {
            cur.push(chars[i]);
        }
        i = i + 1;
    }
    proof {
        assert(chars@.subrange(n as int, n as int) =~= Seq::<char>::empty());
    }
    if cur.len() > 0 {
        let seg = string_of(&cur);
        out.push(seg);
        proof {
            assert(done + seq![cur@] =~= done.push(cur@));
            done = done.push(cur@);
        }
    } else {
        proof {
            assert(done + Seq::<Seq<char>>::empty() =~= done);
        }
    }
    out
}

/// The remote path of a file: the path itself without a prefix, otherwise
/// the prefix without trailing slashes, a slash, and the path.
pub open spec fn remote_path_spec(prefix: Seq<char>, path: Seq<char>) -> Seq<char> {
    if prefix.len() == 0 {
        path
    } else {
        trim_end_char(prefix, '/') + "/"@ + path
    }
}

impl FtpsBackend {
    /// A backend for the given settings.
    pub fn new(config: FtpsConfig) -> (b: Self)
        ensures
            b.config == config,
    {
        FtpsBackend { config }
    }

    /// The port connected to: the configured one, otherwise 990 for FTPS and
    /// 21 for plain FTP.
    pub open spec fn port_spec(self) -> u16 {
        match self.config.port {
            Some(p) => p,
            None => if self.config.use_ssl { 990 } else { 21 },
        }
    }

    /// The `host:port` address connected to.
    pub fn address(&self) -> (a: String)
        ensures
            a@ == self.config.host@ + ":"@ + decimal(self.port_spec() as nat),
    {
        let port: u16 = match self.config.port {
            Some(p) => p,
            None => if self.config.use_ssl { 990 } else { 21 },
        };
        let digits = u64_to_decimal(port as u64);
        concat3(self.config.host.as_str(), ":", digits.as_str())
    }

    /// The remote path that a storage path is written to.
    pub fn remote_path(&self, path: &str) -> (r: String)
        ensures
            r@ == remote_path_spec(self.config.path_prefix@, path@),
    {
        if self.config.path_prefix.as_str().is_empty() {
            path.to_owned()
        } else {
            let trimmed = trim_end_matches_char(self.config.path_prefix.as_str(), '/');
            concat3(trimmed.as_str(), "/", path)
        }
    }

    /// The folders to create, outermost first, so that `path` exists: one per
    /// component, each rooted at `/`.
    pub fn mkdir_steps(path: &str) -> (r: Vec<String>)
        ensures
            r@.len() == path_segments(path@).len(),
            forall|k: int|
                0 <= k < r@.len() ==> (#[trigger] r@[k])@ == rooted_prefix(path_segments(path@), k + 1),
    {
        let segs = split_segments(path);
        let mut out: Vec<String> = Vec::new();
        let mut current = String::new();
        let mut k: usize = 0;
        while k < segs.len()
            invariant
                segs@.len() == path_segments(path@).len(),
                forall|j: int| 0 <= j < segs@.len() ==> (#[trigger] segs@[j])@ == path_segments(path@)[j],
                k <= segs.len(),
                out@.len() == k,
                current@ == rooted_prefix(path_segments(path@), k as int),
                forall|j: int|
                    0 <= j < k ==> (#[trigger] out@[j])@ == rooted_prefix(path_segments(path@), j + 1),
            decreases segs.len() - k,
        {
            current.push('/');
            current.append(segs[k].as_str());
            proof {
                assert(current@ =~= rooted_prefix(path_segments(path@), k + 1));
            }
            out.push(current.clone());
            k = k + 1;
        }
        out
    }

    /// The backend's name.
    pub fn name(&self) -> (n: &'static str)
        ensures
            n@ == "ftp"@,
    {
        "ftp"
    }

    /// FTP servers can rename files and create folders.
    pub fn supports(&self, capability: Capability) -> (r: bool)
        ensures
            r,
    {
        match capability {
            Capability::Rename | Capability::Mkdir => true,
        }
    }
}

/// How the FTP connection is secured.
#[derive(Debug, Clone)]
pub enum TlsTrust {
    /// No TLS: plain FTP.
    Plain,
    /// TLS without checking the server's certificate.
    Unverified,
    /// TLS checked against the public roots, the CA file and the inline CA
    /// certificates, when given.
    Roots { ca_file: Option<String>, ca_pem: Option<String> },
}

/// A step of an FTP session.
#[derive(Debug, Clone, Copy, PartialEq, Eq, Structural)]
pub enum FtpStep {
    Connect,
    Login,
    TransferType,
    Put,
    Remove,
    Rename,
    Mkdir,
}

/// What a failed FTP step amounts to, carrying the failure's text: a
/// refused login is an authentication failure, failing to connect or to set
/// the transfer type a connection failure, and a failed file or folder
/// operation a transfer failure.
pub fn ftp_error(step: FtpStep, detail: String) -> (e: StorageError)
    ensures
        step == FtpStep::Login ==> (e matches StorageError::Auth(m) && m == detail),
        (step == FtpStep::Connect || step == FtpStep::TransferType) ==> (e matches StorageError::Connection(m)
            && m == detail),
        (step == FtpStep::Put || step == FtpStep::Remove || step == FtpStep::Rename || step == FtpStep::Mkdir)
            ==> (e matches StorageError::Transfer(m) && m == detail),
{
    match step {
        FtpStep::Login => StorageError::Auth(detail),
        FtpStep::Connect | FtpStep::TransferType => StorageError::Connection(detail),
        _ => StorageError::Transfer(detail),
    }
}

/// The connection failure of a TLS handshake that did not complete.
pub fn handshake_error(detail: &str) -> (e: StorageError)
    ensures
        e matches StorageError::Connection(m) && m@ == "TLS handshake failed: "@ + detail@,
{
    StorageError::Connection(concat2("TLS handshake failed: ", detail))
}

/// The configuration error of a CA certificate file that could not be read
/// (`parsed` false) or parsed.
pub fn ca_file_error(parsed: bool, path: &str, detail: &str) -> (e: StorageError)
    ensures
        !parsed ==> (e matches StorageError::Config(m) && m@ == "Failed to read CA cert '"@ + path@ + "': "@
            + detail@),
        parsed ==> (e matches StorageError::Config(m) && m@ == "Failed to parse CA cert '"@ + path@ + "': "@
            + detail@),
{
    let head = if parsed { concat2("Failed to parse CA cert '", path) } else { concat2("Failed to read CA cert '", path) };
    StorageError::Config(concat3(head.as_str(), "': ", detail))
}

/// The configuration error of inline CA certificates that could not be
/// parsed (`added` false) or added to the trust store.
pub fn ca_store_error(added: bool, detail: &str) -> (e: StorageError)
    ensures
        !added ==> (e matches StorageError::Config(m) && m@ == "Failed to parse CA cert PEM: "@ + detail@),
        added ==> (e matches StorageError::Config(m) && m@ == "Failed to add CA cert to trust store: "@
            + detail@),
{
    if added {
        StorageError::Config(concat2("Failed to add CA cert to trust store: ", detail))
    } else {
        StorageError::Config(concat2("Failed to parse CA cert PEM: ", detail))
    }
}

impl FtpsBackend {
    /// How the connection is secured: plain FTP without SSL, otherwise TLS,
    /// unchecked when verification is disabled, else checked against the
    /// public roots and the configured CA certificates.
    pub fn trust(&self) -> (t: TlsTrust)
        ensures
            !self.config.use_ssl ==> t is Plain,
            self.config.use_ssl && self.config.danger_disable_cert_verify ==> t is Unverified,
            self.config.use_ssl && !self.config.danger_disable_cert_verify ==> (t matches TlsTrust::Roots {
                ca_file: f,
                ca_pem: p,
            } && f == self.config.ca_cert && p == self.config.ca_cert_pem),
    {
        if !self.config.use_ssl {
            TlsTrust::Plain
        } else if self.config.danger_disable_cert_verify {
            TlsTrust::Unverified
        } else {
            TlsTrust::Roots {
                ca_file: copy_opt_string(&self.config.ca_cert),
                ca_pem: copy_opt_string(&self.config.ca_cert_pem),
            }
        }
    }

    /// Where an upload goes, and the folders to create first, outermost
    /// first: those of the remote path's parent, none when it has none.
    pub fn upload_plan(&self, dest: &str) -> (r: (String, Vec<String>))
        ensures
            r.0@ == remote_path_spec(self.config.path_prefix@, dest@),
            r.1@.len() == path_segments(std_path_parent(r.0@)).len(),
            forall|k: int|
                0 <= k < r.1@.len() ==> (#[trigger] r.1@[k])@ == rooted_prefix(
                    path_segments(std_path_parent(r.0@)),
                    k + 1,
                ),
    {
        let remote = self.remote_path(dest);
        let parent = path_parent(remote.as_str());
        let steps = if parent.as_str().is_empty() {
            proof {
                assert(parent@ =~= Seq::<char>::empty());
                assert(path_segments(parent@) =~= Seq::<Seq<char>>::empty());
            }
            Vec::new()
        } else {
            Self::mkdir_steps(parent.as_str())
        };
        (remote, steps)
    }
}

impl StorageBackend for FtpsBackend {
    fn name(&self) -> (n: &str)
        ensures
            n@ == "ftp"@,
    {
        Self::name(self)
    }

    fn capabilities(&self) -> (r: Option<&dyn BackendCapabilities>)
        ensures
            r is Some,
    {
        Some(self)
    }
}

impl BackendCapabilities for FtpsBackend {
    fn supports(&self, capability: Capability) -> (r: bool)
        ensures
            r,
    {
        Self::supports(self, capability)
    }
}

} // verus!
