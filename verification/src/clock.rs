//! Readings of the system clock, and the values made from them.
use vstd::prelude::*;
use crate::text::{hex_lower, hex_lower_digits, owned};

verus! {

/// Nanoseconds since the Unix epoch, read with `SystemTime::now`, or `None`
/// when the clock reads earlier than the epoch. The reading depends on the
/// time of the call, so nothing is stated of it.
#[verifier::external_body]
fn epoch_nanos() -> Option<u128> {
    std::time::SystemTime::now().duration_since(std::time::UNIX_EPOCH).ok().map(|d| d.as_nanos())
}

/// Whole milliseconds of a clock reading, kept to 64 bits; 0 when the
/// clock read earlier than the epoch.
pub open spec fn spec_millis_of(nanos: Option<u128>) -> u64 {
    match nanos {
        Some(n) => (n / 1_000_000) as u64,
        None => 0,
    }
}

/// The identifier made from a clock reading: its nanoseconds in lower-case
/// hexadecimal, or `key` when the clock read earlier than the epoch.
pub open spec fn spec_id_of(nanos: Option<u128>) -> Seq<char> {
    match nanos {
        Some(n) => hex_lower_digits(n as nat),
        None => "key"@,
    }
}

pub fn millis_of(nanos: Option<u128>) -> (r: u64)
    ensures
        r == spec_millis_of(nanos),
{
    match nanos {
        Some(n) => (n / 1_000_000) as u64,
        None => 0,
    }
}

pub fn id_of(nanos: Option<u128>) -> (r: String)
    ensures
        r@ == spec_id_of(nanos),
{
    match nanos {
        Some(n) => hex_lower(n),
        None => owned("key"),
    }
}

/// Milliseconds since the Unix epoch, now: those of some clock reading.
pub fn now_ms() -> (r: u64)
    ensures
        exists|n: Option<u128>| r == spec_millis_of(n),
{
    let n = epoch_nanos();
    let r = millis_of(n);
    assert(r == spec_millis_of(n));
    r
}

/// A fresh identifier made from the time now: that of some clock reading.
pub fn new_id() -> (r: String)
    ensures
        exists|n: Option<u128>| r@ == spec_id_of(n),
{
    let n = epoch_nanos();
    let r = id_of(n);
    assert(r@ == spec_id_of(n));
    r
}

} // verus!
