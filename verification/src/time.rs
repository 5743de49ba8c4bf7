//! The date-window decision and the timestamp facts it rests on.

use vstd::prelude::*;

verus! {

/// The window decision: a release is new when its publication time lies
/// strictly after `now` minus `days` days (timestamps and the window both
/// counted in seconds since the Unix epoch).
pub open spec fn spec_is_new(published_at: int, days: int, now: int) -> bool {
    published_at > now - days * 86400
}

/// Decides recency, as `spec_is_new` describes, for any inputs.
pub fn is_new(published_at: i64, days: i64, now: i64) -> (r: bool)
    ensures
        r == spec_is_new(published_at as int, days as int, now as int),
{
    let p: i128 = published_at as i128;
    let d: i128 = days as i128;
    let nw: i128 = now as i128;
    p > nw - d * 86400
}

/// What chrono's parser yields for a timestamp string: seconds since the
/// Unix epoch on success, nothing when the string is not a valid timestamp.
pub uninterp spec fn ts_of(s: Seq<char>) -> Option<i64>;

/// Relies on chrono's `FromStr for DateTime<Utc>` (a relaxed RFC 3339 form)
/// and `DateTime::timestamp`: the result depends on the characters alone.
#[verifier::external_body]
pub(crate) fn parse_timestamp(s: &str) -> (r: Option<i64>)
    ensures
        r == ts_of(s@),
{
    match s.parse::<chrono::DateTime<chrono::Utc>>() {
        Ok(d) => Some(d.timestamp()),
        Err(_) => None,
    }
}

/// Relies on chrono's `Utc::now` and `DateTime::timestamp`: seconds since
/// the Unix epoch at the moment of the call; nothing is assumed of it.
#[verifier::external_body]
pub(crate) fn now_secs() -> i64 {
    chrono::Utc::now().timestamp()
}

/// The window decision over an already-parsed timestamp: a missing (that is,
/// unparseable) timestamp is never new; a present one is judged by
/// `spec_is_new`.
pub fn check_new_release_at(published: Option<i64>, days: i64, now: i64) -> (r: bool)
    ensures
        r == (published matches Some(t) && spec_is_new(t as int, days as int, now as int)),
{
    match published {
        Some(t) => is_new(t, days, now),
        None => false,
    }
}

} // verus!
