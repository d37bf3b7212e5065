//! Wall-clock time, as nanoseconds since the UNIX epoch.
use vstd::prelude::*;

verus! {

/// The longest span a `std::time::Duration` can hold, in nanoseconds.
pub const MAX_DURATION_NANOS: u128 = 18446744073709551615999999999u128;

/// Trusted: `SystemTime::now`, taken as the time since the UNIX epoch in
/// nanoseconds (0 for a clock set before the epoch). It depends on the
/// machine's clock; only the range that a `Duration` can hold is stated.
#[verifier::external_body]
pub(crate) fn now_nanos() -> (t: u128)
    ensures
        t <= MAX_DURATION_NANOS,
{
    match std::time::SystemTime::now().duration_since(std::time::UNIX_EPOCH) {
        Ok(d) => d.as_nanos(),
        Err(_) => 0,
    }
}

} // verus!
