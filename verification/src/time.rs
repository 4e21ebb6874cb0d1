use vstd::prelude::*;
use vstd::string::*;

verus! {

/// The error of `chrono`'s parsers, of which nothing is read.
#[verifier::external_type_specification]
#[verifier::external_body]
pub struct ExParseError(chrono::ParseError);

/// An instant: whole seconds since 1970-01-01T00:00:00Z, not counting leap
/// seconds, and the nanoseconds since that second began. During a leap
/// second `nanos` runs on past 999,999,999.
#[derive(Debug, Clone, Copy, PartialEq, Eq, Structural)]
pub struct Timestamp {
    pub seconds: i64,
    pub nanos: u32,
}

impl Timestamp {
    /// Whether `self` is `other` or comes before it.
    pub open spec fn at_or_before(self, other: Timestamp) -> bool {
        self.seconds < other.seconds || (self.seconds == other.seconds && self.nanos
            <= other.nanos)
    }

    /// Whether `self` is `other` or comes before it.
    pub fn is_at_or_before(&self, other: &Timestamp) -> (earlier: bool)
        ensures
            earlier == self.at_or_before(*other),
    {
        self.seconds < other.seconds || (self.seconds == other.seconds && self.nanos
            <= other.nanos)
    }
}

/// The instant that `text` denotes as an RFC 3339 date and time, as seconds
/// and nanoseconds of a [`Timestamp`]: what `chrono` reads from it with
/// `DateTime::parse_from_rfc3339`. `None` where `chrono` rejects `text`.
pub uninterp spec fn rfc3339_instant(text: Seq<char>) -> Option<(i64, u32)>;

/// Calls `DateTime::parse_from_rfc3339` of `chrono` and hands out the
/// instant by `timestamp` and `timestamp_subsec_nanos`. Trusted: the outcome
/// depends on `text` alone, and is what [`rfc3339_instant`] names.
#[verifier::external_body]
pub(crate) fn parse_rfc3339(text: &str) -> (parsed: Result<Timestamp, chrono::ParseError>)
    ensures
        match parsed {
            Ok(instant) => rfc3339_instant(text@) == Some((instant.seconds, instant.nanos)),
            Err(_) => rfc3339_instant(text@) is None,
        },
{
    match chrono::DateTime::parse_from_rfc3339(text) {
        Ok(instant) => Ok(
            Timestamp { seconds: instant.timestamp(), nanos: instant.timestamp_subsec_nanos() },
        ),
        Err(e) => Err(e),
    }
}

/// Calls `Utc::now` of `chrono`. Trusted, and nothing is claimed of the
/// instant: it is whatever the system clock says.
#[verifier::external_body]
pub(crate) fn current_time() -> Timestamp {
    let now = chrono::Utc::now();
    Timestamp { seconds: now.timestamp(), nanos: now.timestamp_subsec_nanos() }
}

} // verus!
