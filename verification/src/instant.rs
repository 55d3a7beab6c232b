//! Instants on the UTC time line, read from the platform's timestamp strings.

use vstd::prelude::*;

verus! {

/// An instant: whole seconds since 1970-01-01T00:00:00Z, and the nanoseconds
/// past that second.
#[derive(Clone, Copy, Debug, PartialEq, Eq, Structural)]
pub struct Timestamp {
    pub secs: i64,
    pub nanos: u32,
}

/// The instant that chrono's `FromStr` for `DateTime<Utc>` reads from a text,
/// if it reads one.
pub uninterp spec fn instant_parsed(text: Seq<char>) -> Option<Timestamp>;

/// `str::parse::<chrono::DateTime<Utc>>`, the parser behind chrono's serde
/// support: a relaxed RFC 3339 reading, converted to UTC. The result is
/// handed out as `DateTime::timestamp` and `DateTime::timestamp_subsec_nanos`.
#[verifier::external_body]
pub(crate) fn parse_instant(text: &str) -> (r: Option<Timestamp>)
    ensures
        r == instant_parsed(text@),
{
    match text.parse::<chrono::DateTime<chrono::Utc>>() {
        Ok(t) => Some(Timestamp { secs: t.timestamp(), nanos: t.timestamp_subsec_nanos() }),
        Err(_) => None,
    }
}

} // verus!
