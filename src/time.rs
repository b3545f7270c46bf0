use vstd::prelude::*;

verus! {

/// An instant in UTC: whole seconds since the Unix epoch and the
/// nanoseconds past that second.
#[derive(Clone, Copy, Debug, PartialEq, Eq, Structural)]
pub struct Timestamp {
    pub secs: i64,
    pub nanos: u32,
}

/// The instant that an RFC 3339 text denotes, or `None` when the text is not
/// a well-formed RFC 3339 date-time.
pub uninterp spec fn rfc3339_instant(s: Seq<char>) -> Option<Timestamp>;

/// Relies on chrono's `DateTime::parse_from_rfc3339`, converted to UTC: the
/// result depends on the text alone.
#[verifier::external_body]
pub(crate) fn parse_rfc3339(s: &str) -> (r: Option<Timestamp>)
    ensures
        r == rfc3339_instant(s@),
{
    chrono::DateTime::parse_from_rfc3339(s).ok().map(
        |dt| Timestamp { secs: dt.timestamp(), nanos: dt.timestamp_subsec_nanos() },
    )
}

/// Relies on chrono's `Utc::now`: the current time, of which nothing is known.
#[verifier::external_body]
pub(crate) fn now() -> (r: Timestamp) {
    let t = chrono::Utc::now();
    Timestamp { secs: t.timestamp(), nanos: t.timestamp_subsec_nanos() }
}

/// The instant that `text` denotes, or `fallback` when it does not parse.
pub fn instant_or(text: &str, fallback: Timestamp) -> (r: Timestamp)
    ensures
        r == (match rfc3339_instant(text@) {
            Some(t) => t,
            None => fallback,
        }),
{
    match parse_rfc3339(text) {
        Some(t) => t,
        None => fallback,
    }
}

} // verus!
