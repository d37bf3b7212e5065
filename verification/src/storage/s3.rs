//! The S3 backend's own logic: object keys, copy sources, multipart sizing
//! and the classification of service failures. `app/` would hold the client.
use vstd::prelude::*;
use vstd::utf8::encode_utf8;
use crate::background::config::S3Config;
use crate::storage::ftps::{trim_end_char, trim_end_matches_char};
use crate::storage::traits::{storage_retryable, BackendCapabilities, Capability, StorageBackend, StorageError};
use crate::background::relay::{hex_encode, hex_lower};
use crate::text::{
    chars_of, concat2, concat3, decimal, same_text, string_of, strip_leading_slashes, trim_start_slashes,
    u64_to_decimal,
};
use crate::utils::random_bytes_16;

verus! {

/// Files larger than this many bytes are uploaded in parts, unless the
/// settings name another threshold.
pub const DEFAULT_MULTIPART_THRESHOLD: u64 = 8388608u64;

/// The smallest part S3 accepts, except for the last.
pub const MIN_PART_SIZE: u64 = 5242880u64;

/// The most parts an upload may have.
pub const MAX_PART_COUNT: u64 = 10000u64;

/// `a / b` rounded up.
pub open spec fn ceil_div(a: int, b: int) -> int {
    (a + b - 1) / b
}

/// The part size for an upload of `size` bytes: just large enough to stay
/// within the part limit, and never below the smallest part.
pub open spec fn part_size_spec(size: u64) -> int {
    let by_count = ceil_div(size as int, MAX_PART_COUNT as int);
    if by_count > MIN_PART_SIZE { by_count } else { MIN_PART_SIZE as int }
}

/// The part size for an upload of `size` bytes.
pub fn plan_part_size(size: u64) -> (p: u64)
    ensures
        p == part_size_spec(size),
        p >= MIN_PART_SIZE,
        ceil_div(size as int, p as int) <= MAX_PART_COUNT,
{
    let by_count: u64 = size / MAX_PART_COUNT + if size % MAX_PART_COUNT != 0 { 1u64 } else { 0u64 };
    assert(by_count == ceil_div(size as int, MAX_PART_COUNT as int)) by (nonlinear_arith)
        requires
            by_count == size / 10000 + if size % 10000 != 0 { 1int } else { 0int },
    ;
    let p = if by_count > MIN_PART_SIZE { by_count } else { MIN_PART_SIZE };
    assert(ceil_div(size as int, p as int) <= MAX_PART_COUNT) by (nonlinear_arith)
        requires
            by_count == (size + 10000 - 1) / 10000,
            p >= by_count,
            p >= 5242880,
    {
        assert(by_count * 10000 >= size);
        assert(p * 10000 >= size);
    }
    p
}

/// The object key of a storage path: without leading slashes, under the
/// prefix (without its trailing slashes) when there is one.
pub open spec fn object_key_spec(prefix: Seq<char>, path: Seq<char>) -> Seq<char> {
    if prefix.len() == 0 {
        trim_start_slashes(path)
    } else {
        trim_end_char(prefix, '/') + "/"@ + trim_start_slashes(path)
    }
}

/// The upper-case hexadecimal digit for `d < 16`.
pub open spec fn hex_digit_upper(d: int) -> char {
    if d < 10 {
        (d + 48) as char
    } else {
        (d + 55) as char
    }
}

/// Bytes that stand for themselves in a copy source: ASCII letters and
/// digits, `/`, `-`, `_` and `.`.
pub open spec fn copy_source_keeps(b: u8) -> bool {
    (48 <= b <= 57) || (65 <= b <= 90) || (97 <= b <= 122) || b == 47 || b == 45 || b == 95 || b == 46
}

/// The percent-encoding of bytes: kept bytes as their characters, every
/// other byte as `%` and two upper-case hexadecimal digits.
pub open spec fn percent_encoded(b: Seq<u8>) -> Seq<char>
    decreases b.len(),
{
    if b.len() == 0 {
        seq![]
    } else {
        let x = b.last();
        percent_encoded(b.drop_last()) + if copy_source_keeps(x) {
            seq![x as char]
        } else {
            seq!['%', hex_digit_upper((x / 16) as int), hex_digit_upper((x % 16) as int)]
        }
    }
}

/// Trusted: `percent_encoding::percent_encode_byte`, which returns `%`
/// followed by the byte in two upper-case hexadecimal digits, as its source
/// table shows.
#[verifier::external_body]
fn percent_encode_byte(b: u8) -> (s: &'static str)
    ensures
        s@ == seq!['%', hex_digit_upper((b / 16) as int), hex_digit_upper((b % 16) as int)],
{
    percent_encoding::percent_encode_byte(b)
}

/// Whether position `k` of a UUID's text holds a dash.
pub open spec fn uuid_dash(k: int) -> bool {
    k == 8 || k == 13 || k == 18 || k == 23
}

/// The hexadecimal digit shown at position `k` of a UUID's text.
pub open spec fn uuid_source(k: int) -> int {
    if k < 8 {
        k
    } else if k < 13 {
        k - 1
    } else if k < 18 {
        k - 2
    } else if k < 23 {
        k - 3
    } else {
        k - 4
    }
}

/// Thirty-two hexadecimal digits written as a UUID: groups of 8, 4, 4, 4
/// and 12 digits joined by dashes.
pub open spec fn uuid_text(h: Seq<char>) -> Seq<char> {
    Seq::new(36, |k: int| if uuid_dash(k) { '-' } else { h[uuid_source(k)] })
}

/// Sixteen bytes that make a random (version 4, RFC 4122 variant) UUID.
pub open spec fn uuid_v4_bytes(b: Seq<u8>) -> bool {
    b.len() == 16 && b[6] / 16 == 4 && b[8] / 64 == 2
}

/// How many characters the UUID text has once `i` digits are written.
pub open spec fn uuid_width(i: int) -> int {
    i + (if i >= 8 { 1int } else { 0 }) + (if i >= 12 { 1int } else { 0 }) + (if i >= 16 { 1int } else { 0 })
        + (if i >= 20 { 1int } else { 0 })
}

/// A fresh random UUID, in lower-case text.
fn random_object_id() -> (id: String)
    ensures
        exists|b: Seq<u8>| uuid_v4_bytes(b) && id@ == #[trigger] uuid_text(hex_lower(b)),
{
    let mut b = random_bytes_16();
    let b6 = b[6];
    let v6: u8 = (b6 & 0x0f) | 0x40;
    assert(((b6 & 0x0f) | 0x40) / 16 == 4) by (bit_vector);
    b.set(6, v6);
    let b8 = b[8];
    let v8: u8 = (b8 & 0x3f) | 0x80;
    assert(((b8 & 0x3f) | 0x80) / 64 == 2) by (bit_vector);
    b.set(8, v8);
    let h = hex_encode(b.as_slice());
    let hc = chars_of(h.as_str());
    let ghost hs = hex_lower(b@);
    assert(hs.len() == 32);
    let mut out: Vec<char> = Vec::new();
    let mut i: usize = 0;
    while i < 32
        invariant
            hc@ == hs,
            hs.len() == 32,
            i <= 32,
            out@.len() == uuid_width(i as int),
            forall|k: int| 0 <= k < out@.len() ==> #[trigger] out@[k] == uuid_text(hs)[k],
        decreases 32 - i,
    {
        out.push(hc[i]);
        if i == 7 || i == 11 || i == 15 || i == 19 {
            out.push('-');
        }
        i = i + 1;
    }
    assert(out@ =~= uuid_text(hs));
    let id = string_of(&out);
    assert(uuid_v4_bytes(b@));
    id
}

/// The position of the last `/` in `t`, or -1 when there is none.
pub open spec fn last_slash(t: Seq<char>) -> int
    decreases t.len(),
{
    if t.len() == 0 {
        -1
    } else if t.last() == '/' {
        t.len() - 1
    } else {
        last_slash(t.drop_last())
    }
}

proof fn lemma_last_slash_bounds(t: Seq<char>)
    ensures
        -1 <= last_slash(t) < t.len(),
    decreases t.len(),
{
    if t.len() > 0 && t.last() != '/' {
        lemma_last_slash_bounds(t.drop_last());
    }
}

/// The position of the last `/` of the characters, if any.
fn find_last_slash(v: &Vec<char>) -> (r: Option<usize>)
    ensures
        match r {
            Some(k) => k == last_slash(v@) && k < v@.len(),
            None => last_slash(v@) == -1,
        },
{
    let mut j: usize = v.len();
    assert(v@.subrange(0, j as int) =~= v@);
    while j > 0 && v[j - 1] != '/'
        invariant
            j <= v@.len(),
            last_slash(v@) == last_slash(v@.subrange(0, j as int)),
        decreases j,
    {
        assert(v@.subrange(0, j as int).drop_last() =~= v@.subrange(0, j - 1));
        j = j - 1;
    }
    if j == 0 {
        None
    } else {
        Some(j - 1)
    }
}

/// The characters `v[from..to]` as a string.
fn text_between(v: &Vec<char>, from: usize, to: usize) -> (s: String)
    requires
        from <= to <= v@.len(),
    ensures
        s@ == v@.subrange(from as int, to as int),
{
    let mut out: Vec<char> = Vec::new();
    let mut i = from;
    while i < to
        invariant
            from <= i <= to <= v@.len(),
            out@ == v@.subrange(from as int, i as int),
        decreases to - i,
    {
        out.push(v[i]);
        i = i + 1;
    }
    string_of(&out)
}

/// What an object key starts with: nothing without a prefix, otherwise the
/// prefix without its trailing slashes and one slash.
pub open spec fn key_base(prefix: Seq<char>) -> Seq<char> {
    if prefix.len() == 0 {
        seq![]
    } else {
        trim_end_char(prefix, '/') + "/"@
    }
}

/// The object key of a storage path under immutable naming: the folders of
/// the path, then `id`, a dash and the file name.
pub open spec fn immutable_key_spec(prefix: Seq<char>, path: Seq<char>, id: Seq<char>) -> Seq<char> {
    let t = trim_start_slashes(path);
    let k = last_slash(t);
    key_base(prefix) + t.subrange(0, k + 1) + id + "-"@ + t.subrange(k + 1, t.len() as int)
}

/// How an S3 request failed before a service reply could be read.
#[derive(Debug, Clone, Copy, PartialEq, Eq, Structural)]
pub enum SdkFailure {
    ConstructionFailure,
    TimeoutError,
    DispatchFailure,
    ResponseError,
    Other,
}

/// A backend that replicates to an S3-compatible object store.
pub struct S3Backend {
    pub config: S3Config,
}

/// The text `S3 <op> ` that every failure message begins with.
pub open spec fn s3_head(op: Seq<char>) -> Seq<char> {
    "S3 "@ + op + " "@
}

/// The failure a service reply with the given status, error code and
/// message amounts to, for an operation on a key. Every status from 5 up
/// that the earlier cases do not take counts as a server error.
pub open spec fn service_error_class(status: u16, code: Seq<char>) -> int {
    if status == 301 {
        0
    } else if status == 403 {
        1
    } else if status == 404 {
        2
    } else if status == 400 && (code == "InvalidAccessKeyId"@ || code == "SignatureDoesNotMatch"@) {
        3
    } else if status >= 5 {
        4
    } else {
        5
    }
}

/// How a service reply is classed: a 400 reply that rejects the access key
/// or the signature, and nothing else, is an authentication failure, which
/// is never retried; redirects, refusals and missing objects are permanent
/// too; a 5xx reply is a server error, which is retried; any other reply is
/// a transfer failure, which is retried.
pub proof fn law_s3_reply_classes(status: u16, code: Seq<char>)
    ensures
        service_error_class(status, code) == 3 <==> (status == 400 && (code == "InvalidAccessKeyId"@ || code
            == "SignatureDoesNotMatch"@)),
        service_error_class(status, code) <= 3 <==> (status == 301 || status == 403 || status == 404 || (status
            == 400 && (code == "InvalidAccessKeyId"@ || code == "SignatureDoesNotMatch"@))),
        status >= 500 ==> service_error_class(status, code) == 4,
{
}

impl S3Backend {
    /// A backend for the given settings.
    pub fn new(config: S3Config) -> (b: Self)
        ensures
            b.config == config,
    {
        S3Backend { config }
    }

    /// The object key of a storage path. Under immutable naming every call
    /// gives a fresh key: a random UUID and a dash go before the file name.
    pub fn object_key(&self, path: &str) -> (k: String)
        ensures
            !self.config.immutable_naming ==> k@ == object_key_spec(self.config.path_prefix@, path@),
            self.config.immutable_naming ==> exists|b: Seq<u8>|
                uuid_v4_bytes(b) && k@ == #[trigger] immutable_key_spec(
                    self.config.path_prefix@,
                    path@,
                    uuid_text(hex_lower(b)),
                ),
    {
        let trimmed = strip_leading_slashes(path);
        if !self.config.immutable_naming {
            return if self.config.path_prefix.as_str().is_empty() {
                trimmed
            } else {
                let prefix = trim_end_matches_char(self.config.path_prefix.as_str(), '/');
                concat3(prefix.as_str(), "/", trimmed.as_str())
            };
        }
        let base = if self.config.path_prefix.as_str().is_empty() {
            String::new()
        } else {
            let prefix = trim_end_matches_char(self.config.path_prefix.as_str(), '/');
            concat2(prefix.as_str(), "/")
        };
        proof {
            if self.config.path_prefix@.len() == 0 {
                assert(base@ =~= key_base(self.config.path_prefix@));
            }
        }
        let chars = chars_of(trimmed.as_str());
        let cut: usize = match find_last_slash(&chars) {
            Some(k) => k + 1,
            None => 0,
        };
        proof {
            lemma_last_slash_bounds(chars@);
        }
        let dir = text_between(&chars, 0, cut);
        let file = text_between(&chars, cut, chars.len());
        let id = random_object_id();
        let head = concat3(base.as_str(), dir.as_str(), id.as_str());
        let key = concat3(head.as_str(), "-", file.as_str());
        proof {
            reveal_strlit("-");
            let b = choose|b: Seq<u8>| uuid_v4_bytes(b) && id@ == #[trigger] uuid_text(hex_lower(b));
            assert(key@ =~= immutable_key_spec(self.config.path_prefix@, path@, uuid_text(hex_lower(b))));
        }
        key
    }

    /// The copy source of an object: the bucket, a slash, and the key with
    /// every byte but letters, digits, `/`, `-`, `_` and `.` percent-encoded.
    pub fn copy_source(&self, key: &str) -> (s: String)
        ensures
            s@ == self.config.bucket@ + "/"@ + percent_encoded(encode_utf8(key@)),
    {
        let bytes = key.as_bytes();
        let mut out = concat2(self.config.bucket.as_str(), "/");
        let ghost head = out@;
        let mut i: usize = 0;
        while i < bytes.len()
            invariant
                bytes@ == encode_utf8(key@),
                i <= bytes@.len(),
                out@ == head + percent_encoded(bytes@.subrange(0, i as int)),
            decreases bytes.len() - i,
        {
            let b = bytes[i];
            proof {
                assert(bytes@.subrange(0, i + 1).drop_last() =~= bytes@.subrange(0, i as int));
            }
            if (48 <= b && b <= 57) || (65 <= b && b <= 90) || (97 <= b && b <= 122) || b == 47 || b == 45
                || b == 95 || b == 46 {
                out.push(b as char);
            } else {
                out.append(percent_encode_byte(b));
            }
            i = i + 1;
        }
        proof {
            assert(bytes@.subrange(0, bytes@.len() as int) =~= bytes@);
        }
        out
    }

    /// The size above which uploads go in parts.
    pub fn multipart_threshold(&self) -> (t: u64)
        ensures
            t == (match self.config.multipart_threshold_bytes {
                Some(x) => x,
                None => DEFAULT_MULTIPART_THRESHOLD,
            }),
    {
        match self.config.multipart_threshold_bytes {
            Some(x) => x,
            None => DEFAULT_MULTIPART_THRESHOLD,
        }
    }

    /// The backend's name.
    pub fn name(&self) -> (n: &'static str)
        ensures
            n@ == "s3"@,
    {
        "s3"
    }

    /// Objects can be renamed (by copy and delete); folders do not exist.
    pub fn supports(&self, capability: Capability) -> (r: bool)
        ensures
            r == (capability == Capability::Rename),
    {
        match capability {
            Capability::Rename => true,
            Capability::Mkdir => false,
        }
    }

    /// The storage error for a service reply with an error status.
    pub fn service_error(status: u16, code: &str, message: &str, op: &str, key: &str) -> (e: StorageError)
        ensures
            service_error_class(status, code@) == 0 ==> (e matches StorageError::Config(m) && m@
                == s3_head(op@) + "redirected for '"@ + key@ + "': "@ + code@),
            service_error_class(status, code@) == 1 ==> (e matches StorageError::PermissionDenied(m) && m@
                == s3_head(op@) + "access denied for '"@ + key@ + "': "@ + message@),
            service_error_class(status, code@) == 2 ==> (e matches StorageError::NotFound(m) && m@
                == s3_head(op@) + "not found '"@ + key@ + "': "@ + message@),
            service_error_class(status, code@) == 3 ==> (e matches StorageError::Auth(m) && m@
                == s3_head(op@) + "authentication failed for '"@ + key@ + "': "@ + code@),
            service_error_class(status, code@) == 4 ==> (e matches StorageError::Transfer(m) && m@
                == s3_head(op@) + "server error "@ + decimal(status as nat) + " for '"@ + key@ + "': "@
                + message@),
            service_error_class(status, code@) == 5 ==> (e matches StorageError::Transfer(m) && m@
                == s3_head(op@) + "failed for '"@ + key@ + "' ("@ + code@ + "): "@ + message@),
            status == 400 && (code@ == "InvalidAccessKeyId"@ || code@ == "SignatureDoesNotMatch"@) ==> (
            e matches StorageError::Auth(m) && m@ == s3_head(op@) + "authentication failed for '"@ + key@
                + "': "@ + code@),
            status == 400 && (code@ == "InvalidAccessKeyId"@ || code@ == "SignatureDoesNotMatch"@)
                ==> !storage_retryable(e),
            status == 301 ==> e is Config && !storage_retryable(e),
            status == 403 ==> e is PermissionDenied && !storage_retryable(e),
            status == 404 ==> e is NotFound && !storage_retryable(e),
            status >= 500 ==> e is Transfer && storage_retryable(e),
    {
        let head = concat3("S3 ", op, " ");
        if status == 301 {
            let a = concat3(head.as_str(), "redirected for '", key);
            StorageError::Config(concat3(a.as_str(), "': ", code))
        } else if status == 403 {
            let a = concat3(head.as_str(), "access denied for '", key);
            StorageError::PermissionDenied(concat3(a.as_str(), "': ", message))
        } else if status == 404 {
            let a = concat3(head.as_str(), "not found '", key);
            StorageError::NotFound(concat3(a.as_str(), "': ", message))
        } else if status == 400 && (same_text(code, "InvalidAccessKeyId") || same_text(
            code,
            "SignatureDoesNotMatch",
        )) {
            let a = concat3(head.as_str(), "authentication failed for '", key);
            StorageError::Auth(concat3(a.as_str(), "': ", code))
        } else if status >= 5 {
            let digits = u64_to_decimal(status as u64);
            let a = concat3(head.as_str(), "server error ", digits.as_str());
            let b = concat3(a.as_str(), " for '", key);
            StorageError::Transfer(concat3(b.as_str(), "': ", message))
        } else {
            let a = concat3(head.as_str(), "failed for '", key);
            let b = concat3(a.as_str(), "' (", code);
            StorageError::Transfer(concat3(b.as_str(), "): ", message))
        }
    }

    /// The storage error for a request that failed before a service reply.
    pub fn sdk_failure_error(kind: SdkFailure, op: &str, key: &str) -> (e: StorageError)
        ensures
            kind == SdkFailure::ConstructionFailure ==> (e matches StorageError::Config(m) && m@
                == s3_head(op@) + "request construction failed for '"@ + key@ + "'"@),
            (kind == SdkFailure::TimeoutError || kind == SdkFailure::DispatchFailure) ==> (
            e matches StorageError::Connection(m) && m@ == s3_head(op@) + "timed out for '"@ + key@
                + "'"@),
            kind == SdkFailure::ResponseError ==> (e matches StorageError::Transfer(m) && m@ == s3_head(
                op@,
            ) + "malformed response for '"@ + key@ + "'"@),
            kind == SdkFailure::Other ==> (e matches StorageError::Transfer(m) && m@ == s3_head(op@)
                + "unknown error for '"@ + key@ + "'"@),
    {
        let head = concat3("S3 ", op, " ");
        match kind {
            SdkFailure::ConstructionFailure => {
                let a = concat3(head.as_str(), "request construction failed for '", key);
                StorageError::Config(concat2(a.as_str(), "'"))
            },
            SdkFailure::TimeoutError | SdkFailure::DispatchFailure => {
                let a = concat3(head.as_str(), "timed out for '", key);
                StorageError::Connection(concat2(a.as_str(), "'"))
            },
            SdkFailure::ResponseError => {
                let a = concat3(head.as_str(), "malformed response for '", key);
                StorageError::Transfer(concat2(a.as_str(), "'"))
            },
            SdkFailure::Other => {
                let a = concat3(head.as_str(), "unknown error for '", key);
                StorageError::Transfer(concat2(a.as_str(), "'"))
            },
        }
    }
}

impl S3Backend {
    /// Whether a file of `size` bytes is uploaded in parts: exactly when it
    /// is larger than the threshold.
    pub fn uses_multipart(&self, size: u64) -> (r: bool)
        ensures
            r == (size > (match self.config.multipart_threshold_bytes {
                Some(x) => x,
                None => DEFAULT_MULTIPART_THRESHOLD,
            })),
    {
        size > self.multipart_threshold()
    }

    /// The transfer failure of a part upload whose reply carries no entity tag.
    pub fn missing_etag_error(part_number: u32, key: &str) -> (e: StorageError)
        ensures
            e matches StorageError::Transfer(m) && m@ == "S3 upload part "@ + decimal(part_number as nat)
                + " returned no etag for '"@ + key@ + "'"@,
    {
        let digits = u64_to_decimal(part_number as u64);
        let head = concat3("S3 upload part ", digits.as_str(), " returned no etag for '");
        StorageError::Transfer(concat3(head.as_str(), key, "'"))
    }

    /// The transfer failure of a multipart upload the service gave no id.
    pub fn missing_upload_id_error(key: &str) -> (e: StorageError)
        ensures
            e matches StorageError::Transfer(m) && m@ == "S3 create multipart upload returned no upload id for '"@
                + key@ + "'"@,
    {
        StorageError::Transfer(concat3("S3 create multipart upload returned no upload id for '", key, "'"))
    }

    /// The configuration error of a TLS context that could not be built.
    pub fn tls_context_error(detail: &str) -> (e: StorageError)
        ensures
            e matches StorageError::Config(m) && m@ == "failed to build TLS context: "@ + detail@,
    {
        StorageError::Config(concat2("failed to build TLS context: ", detail))
    }
}

/// The parts of a multipart upload acknowledged so far, in the order they
/// were sent. The part loop reads the file a part at a time: a read of no
/// bytes ends it and the upload is completed with these parts; otherwise the
/// bytes go out as the next part, numbered from 1, and the service's entity
/// tag for it is recorded; a reply without one fails the upload, which is
/// then aborted.
pub struct PartUploads {
    e_tags: Vec<String>,
}

impl PartUploads {
    /// Every part number fits the 32 bits the service takes.
    #[verifier::type_invariant]
    closed spec fn numbers_fit(&self) -> bool {
        self.e_tags@.len() < u32::MAX
    }

    /// The entity tags of the acknowledged parts; part `i + 1` has tag `i`.
    pub closed spec fn view(&self) -> Seq<Seq<char>> {
        self.e_tags@.map_values(|t: String| t@)
    }

    /// No part sent yet.
    pub fn new() -> (p: Self)
        ensures
            p@ == Seq::<Seq<char>>::empty(),
    {
        PartUploads { e_tags: Vec::new() }
    }

    /// What to do after reading `bytes_read` bytes of the file: nothing more
    /// to send when the read gave none, otherwise send them as the part with
    /// the returned number, one more than the parts acknowledged.
    pub fn after_read(&self, bytes_read: usize) -> (r: Option<u32>)
        ensures
            bytes_read == 0 ==> r is None,
            bytes_read > 0 ==> r == Some((self@.len() + 1) as u32),
    {
        proof {
            use_type_invariant(self);
        }
        if bytes_read == 0 {
            None
        } else {
            Some(self.e_tags.len() as u32 + 1)
        }
    }

    /// Records the reply to the part just sent: its entity tag when there is
    /// one; otherwise the transfer fails, naming the part and the key, and
    /// nothing is recorded.
    pub fn record(&mut self, e_tag: Option<String>, key: &str) -> (r: Result<(), StorageError>)
        requires
            old(self)@.len() + 1 < u32::MAX,
        ensures
            e_tag matches Some(t) ==> r is Ok && final(self)@ == old(self)@.push(t@),
            e_tag is None ==> final(self)@ == old(self)@ && (r matches Err(StorageError::Transfer(m)) && m@
                == "S3 upload part "@ + decimal((old(self)@.len() + 1) as nat) + " returned no etag for '"@
                + key@ + "'"@),
    {
        match e_tag {
            Some(t) => {
                let ghost before = self.e_tags@;
                let mut e_tags: Vec<String> = Vec::new();
                std::mem::swap(&mut e_tags, &mut self.e_tags);
                e_tags.push(t);
                proof {
                    assert(e_tags@.map_values(|t: String| t@) =~= before.map_values(|t: String| t@).push(
                        e_tags@.last()@,
                    ));
                }
                self.e_tags = e_tags;
                Ok(())
            },
            None => {
                proof {
                    use_type_invariant(&*self);
                }
                let n = self.e_tags.len() as u32 + 1;
                Err(S3Backend::missing_etag_error(n, key))
            },
        }
    }

    /// The acknowledged parts as the completion request lists them: each
    /// part's number, counted from 1, with its entity tag.
    pub fn completed(&self) -> (parts: Vec<(u32, String)>)
        ensures
            parts@.len() == self@.len(),
            forall|i: int| 0 <= i < parts@.len() ==> (#[trigger] parts@[i]).0 == i + 1 && parts@[i].1@ == self@[i],
    {
        proof {
            use_type_invariant(self);
        }
        let mut parts: Vec<(u32, String)> = Vec::new();
        let mut i: usize = 0;
        while i < self.e_tags.len()
            invariant
                i <= self.e_tags@.len(),
                self.e_tags@.len() < u32::MAX,
                parts@.len() == i,
                forall|k: int| 0 <= k < i ==> (#[trigger] parts@[k]).0 == k + 1 && parts@[k].1@ == self@[k],
            decreases self.e_tags@.len() - i,
        {
            parts.push((i as u32 + 1, self.e_tags[i].clone()));
            i = i + 1;
        }
        parts
    }
}

impl StorageBackend for S3Backend {
    fn name(&self) -> (n: &str)
        ensures
            n@ == "s3"@,
    {
        Self::name(self)
    }

    fn capabilities(&self) -> (r: Option<&dyn BackendCapabilities>)
        ensures
            r is Some,
    {
        Some(self)
    }
}

impl BackendCapabilities for S3Backend {
    fn supports(&self, capability: Capability) -> (r: bool)
        ensures
            r == (capability == Capability::Rename),
    {
        Self::supports(self, capability)
    }
}

} // verus!
