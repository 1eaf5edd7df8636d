//! Points in time, read from their text form.

use vstd::prelude::*;

verus! {

/// The seconds since the Unix epoch that a date-and-time text denotes, if it
/// is one that `chrono` accepts for a `DateTime<FixedOffset>`.
pub uninterp spec fn timestamp_seconds(text: Seq<char>) -> Option<int>;

/// `str::parse::<chrono::DateTime<chrono::FixedOffset>>` followed by
/// `DateTime::timestamp`: reads an RFC 3339 date and time and gives its
/// distance from the Unix epoch in whole seconds, `None` where the text does
/// not parse.
#[verifier::external_body]
pub(crate) fn parse_timestamp(text: &str) -> (r: Option<i64>)
    ensures
        r.is_some() <==> timestamp_seconds(text@).is_some(),
        r matches Some(s) ==> timestamp_seconds(text@) == Some(s as int),
{
    text.parse::<chrono::DateTime<chrono::FixedOffset>>().ok().map(|t| t.timestamp())
}

} // verus!
