//! The derived timestamp: epoch seconds rendered as a UTC instant.

use vstd::prelude::*;

verus! {

/// The RFC 3339 text, with second precision and the designator `Z`, of the UTC
/// instant that lies `secs` seconds after 1970-01-01T00:00:00Z; `None` where
/// the calendar cannot represent that instant.
pub uninterp spec fn rfc3339_utc(secs: int) -> Option<Seq<char>>;

/// Calls `chrono::TimeZone::timestamp_opt` on `chrono::Utc` with no
/// nanoseconds and, where it yields an instant,
/// `chrono::DateTime::to_rfc3339_opts` with `SecondsFormat::Secs` and the `Z`
/// designator. Nothing is proved of either. The contract gives the outcome the
/// name `rfc3339_utc`: the text depends on the number of seconds alone, and it
/// is absent exactly where chrono reports the number as out of range.
#[verifier::external_body]
pub(crate) fn format_epoch_utc(secs: i64) -> (out: Option<String>)
    ensures
        out is Some == rfc3339_utc(secs as int) is Some,
        out matches Some(text) ==> Some(text@) == rfc3339_utc(secs as int),
{
    let instant = chrono::TimeZone::timestamp_opt(&chrono::Utc, secs, 0).single()?;
    Some(instant.to_rfc3339_opts(chrono::SecondsFormat::Secs, true))
}

} // verus!
