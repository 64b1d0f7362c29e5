//! Wall-clock time, as nanoseconds since the Unix epoch (UTC).

use vstd::prelude::*;

verus! {

/// `chrono::Utc::now()` as nanoseconds since the Unix epoch
/// (`DateTime::timestamp_nanos_opt`, which is `None` past the year 2262).
/// Nothing is claimed of the value: it is the time of the call.
#[verifier::external_body]
fn utc_now_nanos() -> Option<i64> {
    chrono::Utc::now().timestamp_nanos_opt()
}

/// The current time in nanoseconds since the Unix epoch; instants beyond the
/// representable range read as `i64::MAX`.
pub fn current_time_nanos() -> i64 {
    match utc_now_nanos() {
        Some(t) => t,
        None => i64::MAX,
    }
}

/// The RFC 3339 rendering that chrono gives the instant `nanos`
/// nanoseconds after the Unix epoch, in UTC.
pub uninterp spec fn rfc3339_text(nanos: i64) -> Seq<char>;

/// `chrono::DateTime::<Utc>::from_timestamp_nanos(nanos).to_rfc3339()`.
/// The contract only names the result: it is a function of `nanos`.
#[verifier::external_body]
pub fn rfc3339(nanos: i64) -> (s: String)
    ensures
        s@ == rfc3339_text(nanos),
{
    chrono::DateTime::from_timestamp_nanos(nanos).to_rfc3339()
}

} // verus!
