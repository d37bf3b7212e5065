//! Random passwords and the parsing of server settings.
use vstd::prelude::*;
use rand::Rng;
use crate::text::{chars_of, decimal, digit_char, is_ascii_alnum};

verus! {

/// Trusted: one draw of `rand::distr::Alphanumeric` from the thread's
/// random generator, as a character. Its source draws uniformly from
/// `A-Z`, `a-z` and `0-9`; which one comes out is left open.
#[verifier::external_body]
fn random_alphanumeric() -> (c: char)
    ensures
        is_ascii_alnum(c),
{
    char::from(rand::rng().sample(rand::distr::Alphanumeric))
}

/// Trusted: sixteen bytes filled by `Rng::fill` from the thread's random
/// generator (`rand::rng()`). Which bytes come out is left open.
#[verifier::external_body]
pub(crate) fn random_bytes_16() -> (b: Vec<u8>)
    ensures
        b@.len() == 16,
{
    let mut bytes = [0u8; 16];
    rand::rng().fill(&mut bytes);
    bytes.to_vec()
}

/// A random string of `length` ASCII letters and digits.
pub fn generate_random_string(length: usize) -> (s: String)
    ensures
        s@.len() == length,
        forall|i: int| 0 <= i < s@.len() ==> is_ascii_alnum(#[trigger] s@[i]),
{
    let mut s = String::new();
    let mut i: usize = 0;
    while i < length
        invariant
            i <= length,
            s@.len() == i,
            forall|k: int| 0 <= k < s@.len() ==> is_ascii_alnum(#[trigger] s@[k]),
        decreases length - i,
    {
        let c = random_alphanumeric();
        s.push(c);
        i = i + 1;
    }
    s
}

/// The password used: the given one unless it is missing or empty, then
/// ten random letters and digits.
pub fn choose_password(given: Option<String>) -> (p: String)
    ensures
        given matches Some(g) ==> (g@.len() > 0 ==> p@ == g@),
        !(given matches Some(g) && g@.len() > 0) ==> (p@.len() == 10 && forall|i: int|
            0 <= i < p@.len() ==> is_ascii_alnum(#[trigger] p@[i])),
{
    match given {
        Some(g) => if g.as_str().is_empty() {
            generate_random_string(10)
        } else {
            g
        },
        None => generate_random_string(10),
    }
}

/// Whether every character is an ASCII digit.
pub open spec fn all_digits(s: Seq<char>) -> bool {
    forall|i: int| 0 <= i < s.len() ==> '0' <= #[trigger] s[i] && s[i] <= '9'
}

/// The number that ASCII digits spell in decimal.
pub open spec fn digits_value(s: Seq<char>) -> nat
    decreases s.len(),
{
    if s.len() == 0 {
        0
    } else {
        digits_value(s.drop_last()) * 10 + ((s.last() as nat) - ('0' as nat)) as nat
    }
}

/// What `str::parse::<u16>` gives for a text: an optional `+`, then one or
/// more decimal digits whose value fits 16 bits.
pub open spec fn u16_text(s: Seq<char>) -> Option<u16> {
    u16_digits(if s.len() > 0 && s[0] == '+' { s.drop_first() } else { s })
}

/// The 16-bit number that one or more decimal digits spell, if it fits.
pub open spec fn u16_digits(d: Seq<char>) -> Option<u16> {
    if d.len() > 0 && all_digits(d) && digits_value(d) <= 65535 {
        Some(digits_value(d) as u16)
    } else {
        None
    }
}

pub proof fn lemma_digits_prefix(s: Seq<char>, k: int)
    requires
        all_digits(s),
        0 <= k <= s.len(),
    ensures
        digits_value(s.subrange(0, k)) <= digits_value(s),
    decreases s.len() - k,
{
    if k < s.len() {
        lemma_digits_prefix(s, k + 1);
        assert(s.subrange(0, k + 1).drop_last() =~= s.subrange(0, k));
    } else {
        assert(s.subrange(0, k) =~= s);
    }
}

/// Parses the characters `v[from..to]` as `str::parse::<u16>` would.
pub fn parse_u16_chars(v: &Vec<char>, from: usize, to: usize) -> (r: Option<u16>)
    requires
        from <= to <= v@.len(),
    ensures
        r == u16_text(v@.subrange(from as int, to as int)),
{
    let ghost s = v@.subrange(from as int, to as int);
    let mut start = from;
    if from < to && v[from] == '+' {
        start = from + 1;
    }
    let ghost d = v@.subrange(start as int, to as int);
    proof {
        if from < to && v@[from as int] == '+' {
            assert(s.drop_first() =~= d);
        } else {
            assert(s =~= d);
        }
    }
    if start == to {
        return None;
    }
    let mut value: u32 = 0;
    let mut i = start;
    while i < to
        invariant
            start <= i <= to <= v@.len(),
            d == v@.subrange(start as int, to as int),
            u16_text(v@.subrange(from as int, to as int)) == u16_digits(d),
            d.len() > 0,
            value as nat == digits_value(v@.subrange(start as int, i as int)),
            value <= 65535,
            all_digits(v@.subrange(start as int, i as int)),
        decreases to - i,
    {
        let c = v[i];
        proof {
            assert(v@.subrange(start as int, i + 1).drop_last() =~= v@.subrange(start as int, i as int));
        }
        if !('0' <= c && c <= '9') {
            proof {
                assert(d[i - start] == c);
            }
            return None;
        }
        let digit = (c as u32) - ('0' as u32);
        value = value * 10 + digit;
        if value > 65535 {
            proof {
                if all_digits(d) {
                    lemma_digits_prefix(d, i + 1 - start);
                    assert(d.subrange(0, i + 1 - start) =~= v@.subrange(start as int, i + 1));
                }
            }
            return None;
        }
        i = i + 1;
    }
    Some(value as u16)
}

/// `s` has exactly one `-`, at position `k`.
pub open spec fn single_dash_at(s: Seq<char>, k: int) -> bool {
    0 <= k < s.len() && s[k] == '-' && forall|j: int| 0 <= j < s.len() && j != k ==> s[j] != '-'
}

/// The passive port range a `first-last` text names: exactly one `-`, with
/// a 16-bit number on each side.
pub open spec fn port_range_text(s: Seq<char>) -> Option<(u16, u16)> {
    if exists|k: int| single_dash_at(s, k) {
        let k = choose|k: int| single_dash_at(s, k);
        match (u16_text(s.subrange(0, k)), u16_text(s.subrange(k + 1, s.len() as int))) {
            (Some(a), Some(b)) => Some((a, b)),
            _ => None,
        }
    } else {
        None
    }
}

/// Parses a passive port range written `first-last`.
pub fn parse_passive_ports(s: &str) -> (r: Option<(u16, u16)>)
    ensures
        r == port_range_text(s@),
{
    let chars = chars_of(s);
    let n = chars.len();
    let mut dash: Option<usize> = None;
    let mut i: usize = 0;
    while i < n
        invariant
            chars@ == s@,
            n == chars@.len(),
            i <= n,
            match dash {
                Some(k) => k < i && chars@[k as int] == '-' && forall|j: int|
                    0 <= j < i && j != k ==> chars@[j] != '-',
                None => forall|j: int| 0 <= j < i ==> chars@[j] != '-',
            },
        decreases n - i,
    {
        if chars[i] == '-' {
            match dash {
                Some(k) => {
                    proof {
                        assert(!exists|m: int| single_dash_at(s@, m)) by {
                            if exists|m: int| single_dash_at(s@, m) {
                                let m = choose|m: int| single_dash_at(s@, m);
                                if m == k as int {
                                    assert(chars@[i as int] == '-');
                                } else {
                                    assert(chars@[k as int] == '-');
                                }
                            }
                        }
                    }
                    return None;
                },
                None => {
                    dash = Some(i);
                },
            }
        }
        i = i + 1;
    }
    match dash {
        Some(k) => {
            proof {
                assert(single_dash_at(s@, k as int));
                let c = choose|m: int| single_dash_at(s@, m);
                assert(c == k as int);
            }
            let a = parse_u16_chars(&chars, 0, k);
            let b = parse_u16_chars(&chars, k + 1, n);
            match (a, b) {
                (Some(x), Some(y)) => Some((x, y)),
                _ => None,
            }
        },
        None => {
            proof {
                assert(!exists|m: int| single_dash_at(s@, m));
            }
            None
        },
    }
}

/// The certificate and key files FTPS uses. Without both a certificate and
/// a key that passed their check, and with one of them missing, the
/// `cert.pem` and `key.pem` in the working folder are used when both exist.
pub fn choose_certificates(
    enable_ftps: bool,
    cert: Option<String>,
    key: Option<String>,
    provided_ok: bool,
    defaults_present: bool,
) -> (r: (Option<String>, Option<String>))
    ensures
        enable_ftps && !(cert is Some && key is Some && provided_ok) && (cert is None || key is None)
            && defaults_present ==> ((r.0 matches Some(c) && c@ == "cert.pem"@) && (r.1 matches Some(k)
            && k@ == "key.pem"@)),
        !(enable_ftps && !(cert is Some && key is Some && provided_ok) && (cert is None || key is None)
            && defaults_present) ==> r == (cert, key),
{
    let provided_valid = cert.is_some() && key.is_some() && provided_ok;
    if enable_ftps && !provided_valid && (cert.is_none() || key.is_none()) && defaults_present {
        (Some("cert.pem".to_owned()), Some("key.pem".to_owned()))
    } else {
        (cert, key)
    }
}

/// What the decimal form of a number is made of: one or more digits, no
/// sign and no dash, worth the number.
pub proof fn lemma_decimal_digits(n: nat)
    ensures
        decimal(n).len() > 0,
        all_digits(decimal(n)),
        digits_value(decimal(n)) == n,
        forall|i: int| 0 <= i < decimal(n).len() ==> #[trigger] decimal(n)[i] != '-' && decimal(n)[i] != '+',
    decreases n,
{
    lemma_digit_char(n % 10);
    if n >= 10 {
        lemma_decimal_digits(n / 10);
        let d = decimal(n / 10);
        assert(decimal(n).drop_last() =~= d);
        assert(decimal(n) =~= d.push(digit_char(n % 10)));
        assert(decimal(n).last() == digit_char(n % 10));
        assert(digits_value(decimal(n)) == digits_value(d) * 10 + n % 10);
        assert(n == (n / 10) * 10 + n % 10);
    } else {
        assert(decimal(n).drop_last() =~= Seq::<char>::empty());
        assert(decimal(n).last() == digit_char(n));
        assert(digits_value(decimal(n)) == digits_value(Seq::<char>::empty()) * 10 + n);
    }
}

proof fn lemma_digit_char(d: nat)
    requires
        d < 10,
    ensures
        '0' <= digit_char(d) <= '9',
        (digit_char(d) as nat) - ('0' as nat) == d,
{
}

/// A range written `first-last` in decimal reads back as itself.
pub proof fn law_passive_ports_round_trip(first: u16, last: u16)
    ensures
        port_range_text(decimal(first as nat) + "-"@ + decimal(last as nat)) == Some((first, last)),
{
    reveal_strlit("-");
    let a = decimal(first as nat);
    let b = decimal(last as nat);
    let s = a + "-"@ + b;
    lemma_decimal_digits(first as nat);
    lemma_decimal_digits(last as nat);
    let k = a.len() as int;
    assert(s[k] == '-');
    assert forall|j: int| 0 <= j < s.len() && j != k implies s[j] != '-' by {
        if j < k {
            assert(s[j] == a[j]);
        } else {
            assert(s[j] == b[j - k - 1]);
        }
    }
    assert(single_dash_at(s, k));
    let c = choose|m: int| single_dash_at(s, m);
    assert(c == k) by {
        if c != k {
            assert(s[c] == '-');
        }
    }
    assert(s.subrange(0, k) =~= a);
    assert(s.subrange(k + 1, s.len() as int) =~= b);
    assert(a[0] != '+');
    assert(b[0] != '+');
}

} // verus!
