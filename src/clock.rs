//! The two facts about time that the library takes from chrono.
use vstd::prelude::*;

verus! {

/// The instant, in milliseconds since the Unix epoch, that an RFC 3339
/// date-time string denotes, or `None` when the string is not RFC 3339.
pub uninterp spec fn rfc3339_millis(s: Seq<char>) -> Option<i64>;

/// Relies on chrono::Utc::now: the current instant, read as milliseconds
/// since the Unix epoch. Nothing is known of the value.
#[verifier::external_body]
pub fn now_millis() -> (r: i64) {
    chrono::Utc::now().timestamp_millis()
}

/// Relies on chrono::DateTime::parse_from_rfc3339 and timestamp_millis: the
/// result depends on the text alone.
#[verifier::external_body]
pub fn parse_rfc3339_millis(s: &str) -> (r: Option<i64>)
    ensures
        r == rfc3339_millis(s@),
{
    chrono::DateTime::parse_from_rfc3339(s).ok().map(|t| t.timestamp_millis())
}

} // verus!
