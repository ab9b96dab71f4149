use vstd::prelude::*;
use crate::models::Timestamp;

verus! {

/// The RFC 3339 text chrono gives for an instant, or `None` where chrono
/// cannot represent it.
pub uninterp spec fn rfc3339_of(secs: i64, nanos: u32) -> Option<Seq<char>>;

/// Relies on `chrono::Utc::now`: the current time, which nothing constrains.
#[verifier::external_body]
pub(crate) fn now() -> (r: Timestamp)
{
    let t = chrono::Utc::now();
    Timestamp { secs: t.timestamp(), nanos: t.timestamp_subsec_nanos() }
}

/// Relies on `chrono::DateTime::<Utc>::to_rfc3339` (after
/// `DateTime::from_timestamp`): the text depends on the instant alone.
#[verifier::external_body]
pub(crate) fn rfc3339(t: Timestamp) -> (r: Option<String>)
    ensures
        match rfc3339_of(t.secs, t.nanos) {
            Some(s) => r.is_some() && r.unwrap()@ == s,
            None => r.is_none(),
        },
{
    chrono::DateTime::from_timestamp(t.secs, t.nanos).map(|d| d.to_rfc3339())
}

} // verus!
