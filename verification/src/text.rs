//! Character and string helpers shared by the validation and path logic.
//!
//! Strings are reasoned about through their `Seq<char>` views.
use vstd::prelude::*;
use vstd::string::*;
use vstd::utf8::is_ascii_chars;

verus! {

/// ASCII letters and digits.
pub open spec fn is_ascii_alnum(c: char) -> bool {
    ('a' <= c && c <= 'z') || ('A' <= c && c <= 'Z') || ('0' <= c && c <= '9')
}

/// What `char::is_alphanumeric` answers: Unicode `Alphabetic` or `Numeric`.
pub uninterp spec fn unicode_alphanumeric(c: char) -> bool;

/// What `str::to_uppercase` returns for a string: its Unicode uppercase mapping.
pub uninterp spec fn unicode_uppercase(s: Seq<char>) -> Seq<char>;

/// A letter or digit as `char::is_alphanumeric` sees it: among ASCII
/// characters exactly `a`-`z`, `A`-`Z` and `0`-`9`; beyond ASCII the Unicode
/// properties named above.
pub open spec fn alphanumeric(c: char) -> bool {
    if (c as u32) < 128 {
        is_ascii_alnum(c)
    } else {
        unicode_alphanumeric(c)
    }
}

/// Trusted: `char::is_alphanumeric`, the Unicode `Alphabetic` or `Numeric`
/// property, which std documents to agree with `is_ascii_alphanumeric` on
/// ASCII characters.
#[verifier::external_body]
pub(crate) fn char_is_alphanumeric(c: char) -> (r: bool)
    ensures
        r == unicode_alphanumeric(c),
        r == alphanumeric(c),
{
    c.is_alphanumeric()
}

/// White space as `char::is_whitespace` sees it: the Unicode `White_Space`
/// property, which holds of exactly these code points: U+0009 to U+000D,
/// U+0020, U+0085, U+00A0, U+1680, U+2000 to U+200A, U+2028, U+2029,
/// U+202F, U+205F and U+3000.
pub open spec fn white_space(c: char) -> bool {
    let u = c as u32;
    ||| 0x09 <= u <= 0x0D
    ||| u == 0x20
    ||| u == 0x85
    ||| u == 0xA0
    ||| u == 0x1680
    ||| 0x2000 <= u <= 0x200A
    ||| u == 0x2028
    ||| u == 0x2029
    ||| u == 0x202F
    ||| u == 0x205F
    ||| u == 0x3000
}

/// Whether `c` is white space, as `char::is_whitespace` answers it.
pub(crate) fn char_is_whitespace(c: char) -> (r: bool)
    ensures
        r == white_space(c),
{
    let u = c as u32;
    (0x09 <= u && u <= 0x0D) || u == 0x20 || u == 0x85 || u == 0xA0 || u == 0x1680
        || (0x2000 <= u && u <= 0x200A) || u == 0x2028 || u == 0x2029 || u == 0x202F
        || u == 0x205F || u == 0x3000
}

/// A character with ASCII upper-case letters made lower-case.
pub open spec fn ascii_lower(c: char) -> char {
    if 'A' <= c && c <= 'Z' {
        ((c as u32) + 32) as char
    } else {
        c
    }
}

/// Equal up to the case of ASCII letters, as `str::eq_ignore_ascii_case`.
pub open spec fn same_ignoring_ascii_case(a: Seq<char>, b: Seq<char>) -> bool {
    a.len() == b.len() && forall|i: int| 0 <= i < a.len() ==> ascii_lower(#[trigger] a[i]) == ascii_lower(b[i])
}

/// A character with ASCII lower-case letters made upper-case.
pub open spec fn ascii_upper(c: char) -> char {
    if 'a' <= c && c <= 'z' {
        ((c as u32) - 32) as char
    } else {
        c
    }
}

/// The uppercase form of a text as `str::to_uppercase` gives it: letter by
/// letter for ASCII text, otherwise the Unicode mapping named above.
pub open spec fn upper_text(s: Seq<char>) -> Seq<char> {
    if is_ascii_chars(s) {
        s.map_values(|c: char| ascii_upper(c))
    } else {
        unicode_uppercase(s)
    }
}

/// Trusted: `str::to_uppercase`, the Unicode uppercase mapping of the whole
/// string. For ASCII text std documents it to agree with
/// `to_ascii_uppercase`, which turns `a`-`z` into `A`-`Z` and keeps the
/// rest; beyond ASCII the mapping is named, not stated.
#[verifier::external_body]
pub(crate) fn str_to_uppercase(s: &str) -> (r: String)
    ensures
        r@ == unicode_uppercase(s@),
        r@ == upper_text(s@),
{
    s.to_uppercase()
}

/// Trusted: `String::push`, which appends one character.
pub assume_specification[ String::push ](s: &mut String, ch: char)
    ensures
        final(s)@ == old(s)@.push(ch),
;

/// The characters of a string, in order.
pub fn chars_of(s: &str) -> (v: Vec<char>)
    ensures
        v@ == s@,
{
    let n = s.unicode_len();
    let mut v: Vec<char> = Vec::new();
    let mut i: usize = 0;
    while i < n
        invariant
            n == s@.len(),
            i <= n,
            v@ == s@.subrange(0, i as int),
        decreases n - i,
    {
        let c = s.get_char(i);
        v.push(c);
        i = i + 1;
    }
    assert(v@ =~= s@);
    v
}

/// A string holding exactly the given characters.
pub fn string_of(v: &Vec<char>) -> (s: String)
    ensures
        s@ == v@,
{
    let mut s = String::new();
    let mut i: usize = 0;
    while i < v.len()
        invariant
            i <= v.len(),
            s@ == v@.subrange(0, i as int),
        decreases v.len() - i,
    {
        s.push(v[i]);
        i = i + 1;
    }
    assert(s@ =~= v@);
    s
}

/// A copy of an optional string.
pub fn copy_opt_string(o: &Option<String>) -> (r: Option<String>)
    ensures
        r == *o,
{
    match o {
        Some(s) => Some(s.clone()),
        None => None,
    }
}

/// Whether two strings hold the same characters.
pub fn same_text(a: &str, b: &str) -> (r: bool)
    ensures
        r == (a@ == b@),
{
    a.to_owned() == b.to_owned()
}

/// The concatenation of two strings.
pub fn concat2(a: &str, b: &str) -> (s: String)
    ensures
        s@ == a@ + b@,
{
    let mut s = a.to_owned();
    s.append(b);
    s
}

/// The concatenation of three strings.
pub fn concat3(a: &str, b: &str, c: &str) -> (s: String)
    ensures
        s@ == a@ + b@ + c@,
{
    let mut s = a.to_owned();
    s.append(b);
    s.append(c);
    s
}

/// Whether `p` occurs in `s` as a contiguous run of characters.
pub open spec fn contains_seq(s: Seq<char>, p: Seq<char>) -> bool {
    exists|i: int| 0 <= i && i + p.len() <= s.len() && #[trigger] s.subrange(i, i + p.len()) == p
}

/// Whether `p` occurs in `s` at position `i`.
pub open spec fn occurs_at(s: Seq<char>, p: Seq<char>, i: int) -> bool {
    0 <= i && i + p.len() <= s.len() && s.subrange(i, i + p.len()) == p
}

fn occurs_at_exec(s: &Vec<char>, p: &Vec<char>, i: usize) -> (r: bool)
    requires
        i + p.len() <= s.len(),
    ensures
        r == occurs_at(s@, p@, i as int),
{
    let mut j: usize = 0;
    while j < p.len()
        invariant
            i + p.len() <= s.len(),
            j <= p.len(),
            forall|k: int| 0 <= k < j ==> s@[i + k] == p@[k],
        decreases p.len() - j,
    {
        if s[i + j] != p[j] {
            assert(s@.subrange(i as int, i + p.len())[j as int] != p@[j as int]);
            return false;
        }
        j = j + 1;
    }
    assert(s@.subrange(i as int, i + p.len()) =~= p@);
    true
}

/// Whether the characters `p` occur contiguously in `s`.
pub fn contains_chars(s: &Vec<char>, p: &Vec<char>) -> (r: bool)
    ensures
        r == contains_seq(s@, p@),
{
    if p.len() > s.len() {
        return false;
    }
    let last = s.len() - p.len();
    let mut i: usize = 0;
    loop
        invariant
            last + p.len() == s.len(),
            i <= last,
            forall|k: int| 0 <= k < i ==> !occurs_at(s@, p@, k),
        decreases last - i,
    {
        if occurs_at_exec(s, p, i) {
            assert(s@.subrange(i as int, i + p.len()) == p@);
            return true;
        }
        if i == last {
            assert forall|k: int| 0 <= k && k + p@.len() <= s@.len() implies #[trigger] s@.subrange(
                k,
                k + p@.len(),
            ) != p@ by {
                assert(!occurs_at(s@, p@, k));
            }
            return false;
        }
        i = i + 1;
    }
}

/// Whether some character of `s` is among `set`.
pub open spec fn any_char_in(s: Seq<char>, set: Seq<char>) -> bool {
    exists|i: int| 0 <= i < s.len() && set.contains(#[trigger] s[i])
}

/// Whether the character `c` is among `set`.
pub fn char_in(c: char, set: &Vec<char>) -> (r: bool)
    ensures
        r == set@.contains(c),
{
    let mut i: usize = 0;
    while i < set.len()
        invariant
            i <= set.len(),
            forall|k: int| 0 <= k < i ==> set@[k] != c,
        decreases set.len() - i,
    {
        if set[i] == c {
            return true;
        }
        i = i + 1;
    }
    false
}

/// The decimal digit character for `d < 10`.
pub open spec fn digit_char(d: nat) -> char {
    if d == 0 { '0' } else if d == 1 { '1' } else if d == 2 { '2' } else if d == 3 { '3' }
    else if d == 4 { '4' } else if d == 5 { '5' } else if d == 6 { '6' } else if d == 7 { '7' }
    else if d == 8 { '8' } else { '9' }
}

/// The decimal representation of `n`, without sign or leading zeros.
pub open spec fn decimal(n: nat) -> Seq<char>
    decreases n,
{
    if n < 10 {
        seq![digit_char(n)]
    } else {
        decimal(n / 10).push(digit_char(n % 10))
    }
}

fn digit_of(d: u64) -> (c: char)
    requires
        d < 10,
    ensures
        c == digit_char(d as nat),
{
    if d == 0 { '0' } else if d == 1 { '1' } else if d == 2 { '2' } else if d == 3 { '3' }
    else if d == 4 { '4' } else if d == 5 { '5' } else if d == 6 { '6' } else if d == 7 { '7' }
    else if d == 8 { '8' } else { '9' }
}

/// The decimal representation of `n`, as `u64`'s `Display` writes it.
pub fn u64_to_decimal(n: u64) -> (s: String)
    ensures
        s@ == decimal(n as nat),
    decreases n,
{
    if n < 10 {
        let mut s = String::new();
        s.push(digit_of(n));
        assert(s@ =~= decimal(n as nat));
        s
    } else {
        let mut s = u64_to_decimal(n / 10);
        s.push(digit_of(n % 10));
        s
    }
}

/// The value of the first entry named `key`.
pub open spec fn find_first(s: Seq<(Seq<char>, Seq<char>)>, key: Seq<char>) -> Option<Seq<char>>
    decreases s.len(),
{
    if s.len() == 0 {
        None
    } else if s[0].0 == key {
        Some(s[0].1)
    } else {
        find_first(s.drop_first(), key)
    }
}

pub proof fn lemma_find_skip(s: Seq<(Seq<char>, Seq<char>)>, i: int, key: Seq<char>)
    requires
        0 <= i <= s.len(),
        forall|j: int| 0 <= j < i ==> (#[trigger] s[j]).0 != key,
    ensures
        find_first(s, key) == find_first(s.subrange(i, s.len() as int), key),
    decreases i,
{
    if i == 0 {
        assert(s.subrange(0, s.len() as int) =~= s);
    } else {
        assert(s[0].0 != key);
        let t = s.drop_first();
        assert forall|j: int| 0 <= j < i - 1 implies (#[trigger] t[j]).0 != key by {
            assert(t[j] == s[j + 1]);
        }
        lemma_find_skip(t, i - 1, key);
        assert(t.subrange(i - 1, t.len() as int) =~= s.subrange(i, s.len() as int));
    }
}

/// No key occurs in two of the pairs.
pub open spec fn distinct_keys(s: Seq<(Seq<char>, Seq<char>)>) -> bool {
    forall|i: int, j: int| 0 <= i < j < s.len() ==> (#[trigger] s[i]).0 != (#[trigger] s[j]).0
}

/// With distinct keys the first-match lookup is a map lookup: it finds the
/// value of the pair that holds the key, wherever that pair stands, and
/// nothing when no pair holds the key.
pub proof fn lemma_find_distinct(s: Seq<(Seq<char>, Seq<char>)>, key: Seq<char>, value: Seq<char>)
    requires
        distinct_keys(s),
    ensures
        s.contains((key, value)) ==> find_first(s, key) == Some(value),
        (forall|i: int| 0 <= i < s.len() ==> (#[trigger] s[i]).0 != key) ==> find_first(s, key) is None,
{
    if s.contains((key, value)) {
        let i = choose|i: int| 0 <= i < s.len() && s[i] == (key, value);
        assert forall|j: int| 0 <= j < i implies (#[trigger] s[j]).0 != key by {
            assert(s[j].0 != s[i].0);
        }
        lemma_find_skip(s, i, key);
        assert(s.subrange(i, s.len() as int)[0] == s[i]);
    }
    if forall|i: int| 0 <= i < s.len() ==> (#[trigger] s[i]).0 != key {
        lemma_find_skip(s, s.len() as int, key);
        assert(s.subrange(s.len() as int, s.len() as int).len() == 0);
    }
}

/// The pairs of a list of string pairs, as character sequences.
pub open spec fn entries_of(v: Seq<(String, String)>) -> Seq<(Seq<char>, Seq<char>)> {
    v.map_values(|f: (String, String)| (f.0@, f.1@))
}

/// The position of the first pair whose first string is `key`.
pub fn find_entry(fields: &Vec<(String, String)>, key: &str) -> (r: Option<usize>)
    ensures
        match r {
            Some(i) => i < fields@.len() && fields@[i as int].0@ == key@ && find_first(
                entries_of(fields@),
                key@,
            ) == Some(fields@[i as int].1@),
            None => find_first(entries_of(fields@), key@) is None,
        },
{
    let ghost e = entries_of(fields@);
    let mut i: usize = 0;
    while i < fields.len()
        invariant
            e == entries_of(fields@),
            i <= fields.len(),
            forall|j: int| 0 <= j < i ==> (#[trigger] e[j]).0 != key@,
        decreases fields.len() - i,
    {
        if same_text(fields[i].0.as_str(), key) {
            proof {
                lemma_find_skip(e, i as int, key@);
            }
            return Some(i);
        }
        i = i + 1;
    }
    proof {
        lemma_find_skip(e, i as int, key@);
    }
    None
}

/// `s` without leading white space.
pub open spec fn trim_start_ws(s: Seq<char>) -> Seq<char>
    decreases s.len(),
{
    if s.len() > 0 && white_space(s[0]) {
        trim_start_ws(s.drop_first())
    } else {
        s
    }
}

/// `s` without trailing white space.
pub open spec fn trim_end_ws(s: Seq<char>) -> Seq<char>
    decreases s.len(),
{
    if s.len() > 0 && white_space(s.last()) {
        trim_end_ws(s.drop_last())
    } else {
        s
    }
}

/// `s` without leading and trailing white space, as `str::trim` gives it.
pub open spec fn trim_ws(s: Seq<char>) -> Seq<char> {
    trim_end_ws(trim_start_ws(s))
}

/// The string without leading and trailing white space.
pub fn trim_whitespace(s: &str) -> (r: String)
    ensures
        r@ == trim_ws(s@),
{
    let chars = chars_of(s);
    let n = chars.len();
    let mut start: usize = 0;
    proof {
        assert(chars@.subrange(0, n as int) =~= s@);
    }
    while start < n && char_is_whitespace(chars[start])
        invariant
            chars@ == s@,
            n == chars@.len(),
            start <= n,
            trim_start_ws(s@) == trim_start_ws(chars@.subrange(start as int, n as int)),
        decreases n - start,
    {
        proof {
            assert(chars@.subrange(start as int, n as int).drop_first() =~= chars@.subrange(start + 1, n as int));
        }
        start = start + 1;
    }
    let ghost front = chars@.subrange(start as int, n as int);
    assert(trim_start_ws(front) == front);
    let mut end: usize = n;
    proof {
        assert(chars@.subrange(start as int, end as int) =~= front);
    }
    while end > start && char_is_whitespace(chars[end - 1])
        invariant
            n == chars@.len(),
            start <= end <= n,
            trim_end_ws(front) == trim_end_ws(chars@.subrange(start as int, end as int)),
        decreases end,
    {
        proof {
            assert(chars@.subrange(start as int, end as int).drop_last() =~= chars@.subrange(start as int, end - 1));
        }
        end = end - 1;
    }
    let mut out: Vec<char> = Vec::new();
    let mut i: usize = start;
    while i < end
        invariant
            n == chars@.len(),
            start <= i <= end <= n,
            out@ == chars@.subrange(start as int, i as int),
        decreases end - i,
    {
        out.push(chars[i]);
        i = i + 1;
    }
    string_of(&out)
}

/// A path's characters without leading slashes.
pub open spec fn trim_start_slashes(s: Seq<char>) -> Seq<char>
    decreases s.len(),
{
    if s.len() > 0 && s[0] == '/' {
        trim_start_slashes(s.drop_first())
    } else {
        s
    }
}

/// The string without leading slashes.
pub fn strip_leading_slashes(path: &str) -> (r: String)
    ensures
        r@ == trim_start_slashes(path@),
{
    let chars = chars_of(path);
    let mut start: usize = 0;
    proof {
        assert(chars@.subrange(0, chars@.len() as int) =~= path@);
    }
    while start < chars.len() && chars[start] == '/'
        invariant
            chars@ == path@,
            start <= chars@.len(),
            trim_start_slashes(path@) == trim_start_slashes(chars@.subrange(start as int, chars@.len() as int)),
        decreases chars.len() - start,
    {
        proof {
            assert(chars@.subrange(start as int, chars@.len() as int).drop_first() =~= chars@.subrange(
                start + 1,
                chars@.len() as int,
            ));
        }
        start = start + 1;
    }
    let mut rest: Vec<char> = Vec::new();
    let mut i: usize = start;
    while i < chars.len()
        invariant
            start <= i <= chars@.len(),
            rest@ == chars@.subrange(start as int, i as int),
        decreases chars.len() - i,
    {
        rest.push(chars[i]);
        i = i + 1;
    }
    string_of(&rest)
}

} // verus!
