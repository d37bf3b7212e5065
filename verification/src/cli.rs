//! The command line beyond the server's own options: which command runs, the
//! options of `relay init`, and what its answers make of the settings file.
//! `app/` reads the arguments and the answers and writes the file.
use vstd::prelude::*;
use crate::background::config::{BackgroundJobConfig, RelayConfig, UserMapping, DEFAULT_RETRY_DELAY_NANOS};
use crate::text::{ascii_lower, chars_of, same_ignoring_ascii_case, same_text, trim_whitespace, trim_ws};
use crate::utils::{all_digits, digits_value, lemma_digits_prefix};

verus! {

/// What the program was asked to do.
#[derive(Debug, Clone, Copy, PartialEq, Eq, Structural)]
pub enum Command {
    /// Print a fresh device key.
    RelayKeygen,
    /// Write a settings file for the relay interactively.
    RelayInit,
    /// Run the FTP server.
    Serve,
}

/// Whether the arguments begin with `relay` and then `sub`.
pub open spec fn relay_sub(argv: Seq<String>, sub: Seq<char>) -> bool {
    argv.len() >= 3 && argv[1]@ == "relay"@ && argv[2]@ == sub
}

/// The command that the arguments, program name first, ask for.
pub fn command_of(argv: &Vec<String>) -> (c: Command)
    ensures
        relay_sub(argv@, "keygen"@) ==> c == Command::RelayKeygen,
        !relay_sub(argv@, "keygen"@) && relay_sub(argv@, "init"@) ==> c == Command::RelayInit,
        !relay_sub(argv@, "keygen"@) && !relay_sub(argv@, "init"@) ==> c == Command::Serve,
{
    if argv.len() >= 3 && same_text(argv[1].as_str(), "relay") {
        if same_text(argv[2].as_str(), "keygen") {
            return Command::RelayKeygen;
        }
        if same_text(argv[2].as_str(), "init") {
            return Command::RelayInit;
        }
    }
    Command::Serve
}

/// The options of `relay init`: where to write, and whether to overwrite
/// without asking.
pub struct InitOptions {
    pub output: String,
    pub force: bool,
}

/// The options read from `argv[i..]`, starting from `output` and `force`;
/// the first argument that is no option is the error. `--output` (or `-o`)
/// takes the next argument as the file, and is ignored when it comes last.
pub open spec fn init_scan(argv: Seq<String>, i: int, output: Seq<char>, force: bool) -> Result<
    (Seq<char>, bool),
    Seq<char>,
>
    decreases argv.len() - i,
{
    if i >= argv.len() || i < 0 {
        Ok((output, force))
    } else if argv[i]@ == "--output"@ || argv[i]@ == "-o"@ {
        if i + 1 < argv.len() {
            init_scan(argv, i + 2, argv[i + 1]@, force)
        } else {
            Ok((output, force))
        }
    } else if argv[i]@ == "--force"@ || argv[i]@ == "-f"@ {
        init_scan(argv, i + 1, output, true)
    } else {
        Err(argv[i]@)
    }
}

/// Reads the options of `relay init`, which follow `relay init` in the
/// arguments; the error is the first argument that is no option.
pub fn parse_init_args(argv: &Vec<String>) -> (r: Result<InitOptions, String>)
    ensures
        match init_scan(argv@, 3, "bg.json"@, false) {
            Ok((o, f)) => r matches Ok(opts) && opts.output@ == o && opts.force == f,
            Err(a) => r matches Err(x) && x@ == a,
        },
{
    let mut output = "bg.json".to_owned();
    let mut force = false;
    let mut i: usize = 3;
    while i < argv.len()
        invariant
            i >= 3,
            init_scan(argv@, 3, "bg.json"@, false) == init_scan(argv@, i as int, output@, force),
        decreases argv.len() - i,
    {
        let a = argv[i].as_str();
        if same_text(a, "--output") || same_text(a, "-o") {
            if i + 1 < argv.len() {
                output = argv[i + 1].clone();
                i = i + 2;
            } else {
                i = i + 1;
            }
        } else if same_text(a, "--force") || same_text(a, "-f") {
            force = true;
            i = i + 1;
        } else {
            return Err(a.to_owned());
        }
    }
    Ok(InitOptions { output, force })
}

/// Whether two strings are equal up to the case of ASCII letters.
pub fn eq_ignore_ascii_case(a: &str, b: &str) -> (r: bool)
    ensures
        r == same_ignoring_ascii_case(a@, b@),
{
    let x = chars_of(a);
    let y = chars_of(b);
    if x.len() != y.len() {
        return false;
    }
    let mut i: usize = 0;
    while i < x.len()
        invariant
            x@ == a@,
            y@ == b@,
            x@.len() == y@.len(),
            i <= x@.len(),
            forall|j: int| 0 <= j < i ==> ascii_lower(#[trigger] x@[j]) == ascii_lower(y@[j]),
        decreases x.len() - i,
    {
        let c = x[i];
        let d = y[i];
        let lc = if 'A' <= c && c <= 'Z' { ((c as u32) + 32) as u8 as char } else { c };
        let ld = if 'A' <= d && d <= 'Z' { ((d as u32) + 32) as u8 as char } else { d };
        assert(lc == ascii_lower(c) && ld == ascii_lower(d)) by {
            assert('A' <= c && c <= 'Z' ==> ((c as u32) + 32) < 256);
            assert('A' <= d && d <= 'Z' ==> ((d as u32) + 32) < 256);
        }
        if lc != ld {
            return false;
        }
        i = i + 1;
    }
    true
}

/// An answer of `y` or `yes`, in any case.
pub open spec fn yes_answer(a: Seq<char>) -> bool {
    same_ignoring_ascii_case(a, "y"@) || same_ignoring_ascii_case(a, "yes"@)
}

/// Whether an answer says yes.
pub fn is_yes(answer: &str) -> (r: bool)
    ensures
        r == yes_answer(answer@),
{
    eq_ignore_ascii_case(answer, "y") || eq_ignore_ascii_case(answer, "yes")
}

/// The answer to a prompt: the line without surrounding white space, or the
/// default when nothing is left.
pub fn answer_or_default(line: &str, default: &str) -> (r: String)
    ensures
        r@ == (if trim_ws(line@).len() == 0 { default@ } else { trim_ws(line@) }),
{
    let value = trim_whitespace(line);
    if value.as_str().is_empty() {
        default.to_owned()
    } else {
        value
    }
}

/// What `str::parse::<u64>` gives for a text: an optional `+`, then one or
/// more decimal digits whose value fits 64 bits.
pub open spec fn u64_text(s: Seq<char>) -> Option<u64> {
    let d = if s.len() > 0 && s[0] == '+' { s.drop_first() } else { s };
    if d.len() > 0 && all_digits(d) && digits_value(d) <= u64::MAX {
        Some(digits_value(d) as u64)
    } else {
        None
    }
}

/// Parses a text as `str::parse::<u64>` does.
pub fn parse_u64(s: &str) -> (r: Option<u64>)
    ensures
        r == u64_text(s@),
{
    let v = chars_of(s);
    let mut start: usize = 0;
    if v.len() > 0 && v[0] == '+' {
        start = 1;
    }
    let ghost d = v@.subrange(start as int, v@.len() as int);
    proof {
        if v@.len() > 0 && v@[0] == '+' {
            assert(s@.drop_first() =~= d);
        } else {
            assert(s@ =~= d);
        }
    }
    if start == v.len() {
        return None;
    }
    let mut value: u64 = 0;
    let mut i: usize = start;
    while i < v.len()
        invariant
            v@ == s@,
            start <= i <= v@.len(),
            d == v@.subrange(start as int, v@.len() as int),
            u64_text(s@) == (if d.len() > 0 && all_digits(d) && digits_value(d) <= u64::MAX {
                Some(digits_value(d) as u64)
            } else {
                None
            }),
            d.len() > 0,
            value as nat == digits_value(v@.subrange(start as int, i as int)),
            all_digits(v@.subrange(start as int, i as int)),
        decreases v.len() - i,
    {
        let c = v[i];
        proof {
            assert(v@.subrange(start as int, i + 1).drop_last() =~= v@.subrange(start as int, i as int));
        }
        if !('0' <= c && c <= '9') {
            proof {
                assert(d[i - start] == c);
            }
            return None;
        }
        let digit = ((c as u32) - ('0' as u32)) as u64;
        let next = match value.checked_mul(10) {
            Some(t) => t.checked_add(digit),
            None => None,
        };
        match next {
            Some(n) => {
                value = n;
            },
            None => {
                proof {
                    assert(all_digits(v@.subrange(start as int, i + 1)));
                    if all_digits(d) {
                        lemma_digits_prefix(d, i + 1 - start);
                        assert(d.subrange(0, i + 1 - start) =~= v@.subrange(start as int, i + 1));
                    }
                }
                return None;
            },
        }
        i = i + 1;
    }
    proof {
        assert(v@.subrange(start as int, i as int) =~= d);
    }
    Some(value)
}

/// The approval timeout asked for, in seconds: the answer as a number, or
/// half an hour when it is none.
pub fn timeout_answer(answer: &str) -> (t: u64)
    ensures
        t == (match u64_text(trim_ws(answer@)) {
            Some(n) => n,
            None => 1800,
        }),
{
    let trimmed = trim_whitespace(answer);
    match parse_u64(trimmed.as_str()) {
        Some(n) => n,
        None => 1800,
    }
}

/// The CA certificate file named in an answer: none for an empty answer or
/// `none` in any case.
pub fn ca_cert_answer(answer: &str) -> (r: Option<String>)
    ensures
        (answer@.len() == 0 || same_ignoring_ascii_case(answer@, "none"@)) ==> r is None,
        !(answer@.len() == 0 || same_ignoring_ascii_case(answer@, "none"@)) ==> (r matches Some(c) && c@
            == answer@),
{
    if answer.is_empty() || eq_ignore_ascii_case(answer, "none") {
        None
    } else {
        Some(answer.to_owned())
    }
}

/// The answers given to `relay init`, each already defaulted.
pub struct InitAnswers {
    pub url: String,
    pub device_name: String,
    pub timeout: String,
    pub ca_cert: String,
    pub danger: String,
    pub messages: String,
}

/// Whether the background settings are those `relay init` writes for the
/// given answers and device key: jobs enabled, two workers, room for a
/// thousand jobs, the rest at their defaults, and the relay as answered.
pub open spec fn is_init_config(c: BackgroundJobConfig, a: InitAnswers, key: Seq<char>) -> bool {
    &&& c.enabled
    &&& c.max_parallel_jobs == 2
    &&& c.queue_capacity == 1000
    &&& c.retry_delay_base == DEFAULT_RETRY_DELAY_NANOS
    &&& c.max_retries == 3
    &&& c.remote_storage is None
    &&& c.storage is None
    &&& c.user_mapping is PrefixUserName
    &&& c.relay matches Some(r) && {
        &&& r.url@ == a.url@
        &&& r.device_key@ == key
        &&& r.device_name@ == a.device_name@
        &&& r.approval_timeout_secs == (match u64_text(trim_ws(a.timeout@)) {
            Some(n) => n,
            None => 1800,
        })
        &&& ((a.ca_cert@.len() == 0 || same_ignoring_ascii_case(a.ca_cert@, "none"@)) ==> r.ca_cert is None)
        &&& (!(a.ca_cert@.len() == 0 || same_ignoring_ascii_case(a.ca_cert@, "none"@)) ==> (
        r.ca_cert matches Some(x) && x@ == a.ca_cert@))
        &&& r.danger_disable_cert_verify == yes_answer(a.danger@)
        &&& r.relay_messages == (yes_answer(a.messages@) || a.messages@.len() == 0)
    }
}

/// The settings `relay init` writes, or the complaint that no relay URL was
/// given.
pub fn init_config(answers: InitAnswers, device_key: String) -> (r: Result<BackgroundJobConfig, String>)
    ensures
        answers.url@.len() == 0 ==> (r matches Err(m) && m@ == "relay url is required"@),
        answers.url@.len() > 0 ==> (r matches Ok(c) && is_init_config(c, answers, device_key@)),
{
    if answers.url.as_str().is_empty() {
        return Err("relay url is required".to_owned());
    }
    let approval_timeout_secs = timeout_answer(answers.timeout.as_str());
    let ca_cert = ca_cert_answer(answers.ca_cert.as_str());
    let danger = is_yes(answers.danger.as_str());
    let relay_messages = is_yes(answers.messages.as_str()) || answers.messages.as_str().is_empty();
    let relay = RelayConfig {
        url: answers.url,
        device_key,
        device_name: answers.device_name,
        approval_timeout_secs,
        ca_cert,
        danger_disable_cert_verify: danger,
        relay_messages,
    };
    Ok(
        BackgroundJobConfig {
            enabled: true,
            max_parallel_jobs: 2,
            retry_delay_base: DEFAULT_RETRY_DELAY_NANOS,
            max_retries: 3,
            queue_capacity: 1000,
            remote_storage: None,
            storage: None,
            user_mapping: UserMapping::PrefixUserName,
            relay: Some(relay),
        },
    )
}

} // verus!
