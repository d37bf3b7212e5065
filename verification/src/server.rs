//! The settings the FTP server is started with: passive ports and host, and
//! the FTPS certificate pair. `app/` builds the server from them.
use vstd::prelude::*;
use crate::config::Args;
use crate::text::{chars_of, is_ascii_alnum};
use crate::utils::{
    all_digits, choose_certificates, choose_password, digits_value, parse_passive_ports, port_range_text,
};

verus! {

/// The passive ports used when none are configured: 50000 to 65535.
pub const DEFAULT_PASSIVE_FIRST: u16 = 50000u16;

/// The last of the default passive ports.
pub const DEFAULT_PASSIVE_LAST: u16 = 65535u16;

/// The passive port range: the configured one, otherwise the default.
pub fn passive_range(configured: Option<(u16, u16)>) -> (r: (u16, u16))
    ensures
        r == (match configured {
            Some(p) => p,
            None => (DEFAULT_PASSIVE_FIRST, DEFAULT_PASSIVE_LAST),
        }),
{
    match configured {
        Some(p) => p,
        None => (DEFAULT_PASSIVE_FIRST, DEFAULT_PASSIVE_LAST),
    }
}

/// The dot-separated parts of a text, empty ones kept, starting with `cur`.
pub open spec fn dot_parts_from(s: Seq<char>, cur: Seq<char>) -> Seq<Seq<char>>
    decreases s.len(),
{
    if s.len() == 0 {
        seq![cur]
    } else if s[0] == '.' {
        seq![cur] + dot_parts_from(s.drop_first(), seq![])
    } else {
        dot_parts_from(s.drop_first(), cur.push(s[0]))
    }
}

/// The dot-separated parts of a text.
pub open spec fn dot_parts(s: Seq<char>) -> Seq<Seq<char>> {
    dot_parts_from(s, seq![])
}

/// One to three decimal digits, without a leading zero unless alone, worth
/// at most 255.
pub open spec fn octet_text(p: Seq<char>) -> bool {
    &&& 1 <= p.len() <= 3
    &&& all_digits(p)
    &&& !(p.len() > 1 && p[0] == '0')
    &&& digits_value(p) <= 255
}

/// The address a dotted-quad text names, as `Ipv4Addr`'s parser reads it:
/// exactly four octets separated by dots.
pub open spec fn ipv4_text(s: Seq<char>) -> Option<[u8; 4]> {
    let parts = dot_parts(s);
    if parts.len() == 4 && octet_text(parts[0]) && octet_text(parts[1]) && octet_text(parts[2])
        && octet_text(parts[3]) {
        Some(
            [
                digits_value(parts[0]) as u8,
                digits_value(parts[1]) as u8,
                digits_value(parts[2]) as u8,
                digits_value(parts[3]) as u8,
            ],
        )
    } else {
        None
    }
}

proof fn lemma_dot_parts_step(s: Seq<char>, i: int, cur: Seq<char>)
    requires
        0 <= i < s.len(),
    ensures
        dot_parts_from(s.subrange(i, s.len() as int), cur) == (if s[i] == '.' {
            seq![cur] + dot_parts_from(s.subrange(i + 1, s.len() as int), seq![])
        } else {
            dot_parts_from(s.subrange(i + 1, s.len() as int), cur.push(s[i]))
        }),
{
    assert(s.subrange(i, s.len() as int).drop_first() =~= s.subrange(i + 1, s.len() as int));
}

/// The dot-separated parts of a text, empty ones kept.
fn split_dots(s: &str) -> (r: Vec<Vec<char>>)
    ensures
        r@.len() == dot_parts(s@).len(),
        forall|k: int| 0 <= k < r@.len() ==> (#[trigger] r@[k])@ == dot_parts(s@)[k],
{
    let chars = chars_of(s);
    let n = chars.len();
    let mut out: Vec<Vec<char>> = Vec::new();
    let mut cur: Vec<char> = Vec::new();
    let ghost done: Seq<Seq<char>> = seq![];
    let mut i: usize = 0;
    proof {
        assert(chars@.subrange(0, n as int) =~= chars@);
        assert(cur@ =~= Seq::<char>::empty());
        assert(done + dot_parts_from(chars@, cur@) =~= dot_parts_from(chars@, cur@));
    }
    while i < n
        invariant
            chars@ == s@,
            n == chars@.len(),
            i <= n,
            out@.len() == done.len(),
            forall|k: int| 0 <= k < out@.len() ==> (#[trigger] out@[k])@ == done[k],
            dot_parts(s@) == done + dot_parts_from(chars@.subrange(i as int, n as int), cur@),
        decreases n - i,
    {
        proof {
            lemma_dot_parts_step(chars@, i as int, cur@);
        }
        if chars[i] == '.' {
            let part = cur;
            proof {
                assert(done + (seq![part@] + dot_parts_from(chars@.subrange(i + 1, n as int), seq![]))
                    =~= done.push(part@) + dot_parts_from(chars@.subrange(i + 1, n as int), seq![]));
                done = done.push(part@);
            }
            out.push(part);
            cur = Vec::new();
            proof {
                assert(cur@ =~= Seq::<char>::empty());
            }
        } else {
            cur.push(chars[i]);
        }
        i = i + 1;
    }
    proof {
        assert(chars@.subrange(n as int, n as int) =~= Seq::<char>::empty());
        assert(done + seq![cur@] =~= done.push(cur@));
        done = done.push(cur@);
    }
    out.push(cur);
    out
}

/// The value of a part if it is an octet.
fn parse_octet(p: &Vec<char>) -> (r: Option<u8>)
    ensures
        octet_text(p@) ==> r == Some(digits_value(p@) as u8),
        !octet_text(p@) ==> r is None,
{
    if p.len() < 1 || p.len() > 3 {
        return None;
    }
    if p.len() > 1 && p[0] == '0' {
        return None;
    }
    let mut value: u32 = 0;
    let mut i: usize = 0;
    while i < p.len()
        invariant
            1 <= p@.len() <= 3,
            i <= p@.len(),
            value as nat == digits_value(p@.subrange(0, i as int)),
            i == 0 ==> value == 0,
            i <= 1 ==> value < 10,
            i <= 2 ==> value < 100,
            value < 1000,
            all_digits(p@.subrange(0, i as int)),
        decreases p.len() - i,
    {
        let c = p[i];
        proof {
            assert(p@.subrange(0, i + 1).drop_last() =~= p@.subrange(0, i as int));
        }
        if !('0' <= c && c <= '9') {
            assert(!all_digits(p@)) by {
                assert(p@[i as int] == c);
            }
            return None;
        }
        value = value * 10 + ((c as u32) - ('0' as u32));
        i = i + 1;
    }
    proof {
        assert(p@.subrange(0, p@.len() as int) =~= p@);
    }
    if value > 255 {
        return None;
    }
    Some(value as u8)
}

/// Reads a dotted-quad IPv4 address.
pub fn parse_ipv4(s: &str) -> (r: Option<[u8; 4]>)
    ensures
        r == ipv4_text(s@),
{
    let parts = split_dots(s);
    if parts.len() != 4 {
        return None;
    }
    let a = parse_octet(&parts[0]);
    let b = parse_octet(&parts[1]);
    let c = parse_octet(&parts[2]);
    let d = parse_octet(&parts[3]);
    match (a, b, c, d) {
        (Some(a), Some(b), Some(c), Some(d)) => Some([a, b, c, d]),
        _ => None,
    }
}

/// The host the server announces for passive transfers.
#[derive(Debug, Clone, PartialEq, Eq)]
pub enum PassiveHost {
    /// An IPv4 address, by its octets.
    Ip([u8; 4]),
    /// A name, resolved by the server.
    Name(String),
}

/// The passive host for a configured external address: its octets when it
/// is an IPv4 address, otherwise the text as a name.
pub fn passive_host(host: &str) -> (r: PassiveHost)
    ensures
        ipv4_text(host@) matches Some(o) ==> r == PassiveHost::Ip(o),
        ipv4_text(host@) is None ==> (r matches PassiveHost::Name(n) && n@ == host@),
{
    match parse_ipv4(host) {
        Some(o) => PassiveHost::Ip(o),
        None => PassiveHost::Name(host.to_owned()),
    }
}

/// The certificate and key FTPS is configured with: both, when FTPS is on
/// and both are known; otherwise none, and the server runs plain FTP.
pub fn ftps_files(enable_ftps: bool, cert: Option<String>, key: Option<String>) -> (r: Option<(String, String)>)
    ensures
        (enable_ftps && cert is Some && key is Some) ==> (r matches Some((c, k)) && Some(c) == cert
            && Some(k) == key),
        !(enable_ftps && cert is Some && key is Some) ==> r is None,
{
    if enable_ftps {
        match (cert, key) {
            (Some(c), Some(k)) => Some((c, k)),
            _ => None,
        }
    } else {
        None
    }
}

/// What the server runs with, once its arguments have been read.
pub struct ServerSettings {
    pub address: String,
    pub port: u16,
    pub directory: String,
    pub username: String,
    pub password: String,
    pub enable_ftps: bool,
    pub cert_path: Option<String>,
    pub key_path: Option<String>,
    pub passive_ports: Option<(u16, u16)>,
    pub external_ip: Option<String>,
}

impl ServerSettings {
    /// The settings the arguments ask for. FTPS is on unless switched off;
    /// a missing or empty password is replaced by ten random letters and
    /// digits; an unreadable passive port range is ignored; the certificate
    /// pair is chosen as `choose_certificates` says, `provided_ok` telling
    /// whether given files passed their check and `defaults_present` whether
    /// `cert.pem` and `key.pem` exist in the working folder.
    pub fn from_args(args: Args, provided_ok: bool, defaults_present: bool) -> (s: Self)
        ensures
            s.address == args.address,
            s.port == args.port,
            s.directory == args.directory,
            s.username == args.username,
            (args.password matches Some(g) && g@.len() > 0) ==> (args.password matches Some(g) && s.password@
                == g@),
            !(args.password matches Some(g) && g@.len() > 0) ==> (s.password@.len() == 10 && forall|i: int|
                0 <= i < s.password@.len() ==> is_ascii_alnum(#[trigger] s.password@[i])),
            s.enable_ftps == (match args.enable_ftps {
                Some(b) => b,
                None => true,
            }),
            s.passive_ports == (match args.passive_ports {
                Some(p) => port_range_text(p@),
                None => None,
            }),
            s.external_ip == args.external_ip,
            s.enable_ftps && !(args.cert_pem is Some && args.key_pem is Some && provided_ok) && (
            args.cert_pem is None || args.key_pem is None) && defaults_present ==> ((s.cert_path matches Some(
                c,
            ) && c@ == "cert.pem"@) && (s.key_path matches Some(k) && k@ == "key.pem"@)),
            !(s.enable_ftps && !(args.cert_pem is Some && args.key_pem is Some && provided_ok) && (
            args.cert_pem is None || args.key_pem is None) && defaults_present) ==> (s.cert_path
                == args.cert_pem && s.key_path == args.key_pem),
    {
        let enable_ftps = match args.enable_ftps {
            Some(b) => b,
            None => true,
        };
        let password = choose_password(args.password);
        let passive_ports = match &args.passive_ports {
            Some(p) => parse_passive_ports(p.as_str()),
            None => None,
        };
        let (cert_path, key_path) = choose_certificates(
            enable_ftps,
            args.cert_pem,
            args.key_pem,
            provided_ok,
            defaults_present,
        );
        ServerSettings {
            address: args.address,
            port: args.port,
            directory: args.directory,
            username: args.username,
            password,
            enable_ftps,
            cert_path,
            key_path,
            passive_ports,
            external_ip: args.external_ip,
        }
    }
}

} // verus!
