use crate::error::ResolveError;
use crate::payload::ResolvedPayload;
use crate::time::{current_time, parse_rfc3339, rfc3339_instant, Timestamp};
use vstd::prelude::*;
use vstd::string::*;

verus! {

/// Whether something that expires at `expires_at` may still be used at
/// `now`. The instant of expiry itself is already too late.
pub open spec fn expiry_verdict(expires_at: Timestamp, now: Timestamp) -> Result<
    (),
    ResolveError,
> {
    if expires_at.at_or_before(now) {
        Err(ResolveError::Expired)
    } else {
        Ok(())
    }
}

/// Whether a payload whose expiry reads `expires` may be used at `now`.
pub open spec fn expiry_outcome(expires: Option<Seq<char>>, now: Timestamp) -> Result<
    (),
    ResolveError,
> {
    match expires {
        Some(text) => match rfc3339_instant(text) {
            Some((seconds, nanos)) => expiry_verdict(Timestamp { seconds, nanos }, now),
            None => Err(ResolveError::MalformedPayload),
        },
        None => Err(ResolveError::MissingExpiry),
    }
}

/// Fails with `Expired` when `expires_at` is `now` or earlier.
pub fn check_expiry(expires_at: Timestamp, now: Timestamp) -> (checked: Result<(), ResolveError>)
    ensures
        checked == expiry_verdict(expires_at, now),
{
    if expires_at.is_at_or_before(&now) {
        Err(ResolveError::Expired)
    } else {
        Ok(())
    }
}

/// Checks that `payload` has not expired at `now`.
///
/// Fails with `MissingExpiry` when the payload has no expiry, with
/// `MalformedPayload` when the expiry is not an RFC 3339 date and time, and
/// with `Expired` when it is `now` or earlier.
pub fn enforce_expires_at(payload: &ResolvedPayload, now: Timestamp) -> (checked: Result<
    (),
    ResolveError,
>)
    ensures
        checked == expiry_outcome(payload.expires_text(), now),
{
    let text = match &payload.expires {
        Some(text) => text,
        None => {
            return Err(ResolveError::MissingExpiry);
        },
    };
    match parse_rfc3339(text.as_str()) {
        Ok(expires_at) => check_expiry(expires_at, now),
        Err(_) => Err(ResolveError::MalformedPayload),
    }
}

/// Checks that `payload` has not expired by the system clock: what
/// [`enforce_expires_at`] answers for the instant at which the clock is read.
pub fn enforce_expires(payload: &ResolvedPayload) -> (checked: Result<(), ResolveError>)
    ensures
        exists|now: Timestamp| checked == #[trigger] expiry_outcome(payload.expires_text(), now),
{
    let now = current_time();
    enforce_expires_at(payload, now)
}

/// Of a payload whose expiry reads as the instant `expires_at`: where that
/// is one second before `now` the payload is refused as expired, and so it
/// is where that is exactly `now`; where it is one second after `now` the
/// payload is accepted.
pub proof fn lemma_expiry_around_now(text: Seq<char>, expires_at: Timestamp, now: Timestamp)
    ensures
        rfc3339_instant(text) == Some((expires_at.seconds, expires_at.nanos)) && expires_at.nanos
            == now.nanos ==> {
            let outcome = expiry_outcome(Some(text), now);
            let expired = outcome matches Err(ResolveError::Expired);
            &&& expires_at.seconds + 1 == now.seconds ==> expired
            &&& expires_at.seconds == now.seconds ==> expired
            &&& expires_at.seconds == now.seconds + 1 ==> outcome is Ok
        },
{
}

/// A payload whose expiry can be read is accepted exactly when the expiry
/// is after `now`, and is refused with `Expired` otherwise.
pub proof fn lemma_expired_iff_not_after(text: Seq<char>, now: Timestamp)
    ensures
        rfc3339_instant(text) matches Some((seconds, nanos)) ==> {
            let outcome = expiry_outcome(Some(text), now);
            let after = seconds > now.seconds || (seconds == now.seconds && nanos > now.nanos);
            let expired = outcome matches Err(ResolveError::Expired);
            &&& after ==> outcome is Ok
            &&& !after ==> expired
        },
{
}

} // verus!
