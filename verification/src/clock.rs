//! The system clock, through chrono. The current time can promise nothing
//! about its value; its rendering is a pure function of the timestamp and
//! is given a name the prompt contracts can use.

use vstd::prelude::*;

verus! {

/// The RFC 3339 rendering of a UTC timestamp given in Unix seconds, as
/// chrono produces it (the empty string for a timestamp out of chrono's
/// range).
pub uninterp spec fn rfc3339_of(secs: i64) -> Seq<char>;

/// Relies on chrono's `Utc::now`: the current time in Unix seconds.
/// Nothing is assumed of the value — it depends on the clock.
#[verifier::external_body]
pub fn now_unix_seconds() -> i64 {
    chrono::Utc::now().timestamp()
}

/// Relies on chrono's `DateTime::from_timestamp` and `to_rfc3339`: the
/// rendering depends on the timestamp alone, and an out-of-range timestamp
/// yields the empty string.
#[verifier::external_body]
pub fn format_rfc3339_utc(secs: i64) -> (r: String)
    ensures
        r@ == rfc3339_of(secs),
{
    chrono::DateTime::<chrono::Utc>::from_timestamp(secs, 0)
        .map(|d| d.to_rfc3339())
        .unwrap_or_default()
}

} // verus!
