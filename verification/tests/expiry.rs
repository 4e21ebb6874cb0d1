use cryptalias::error::ResolveError;
use cryptalias::expiry::{check_expiry, enforce_expires, enforce_expires_at};
use cryptalias::payload::ResolvedPayload;
use cryptalias::time::Timestamp;

fn payload(expires: Option<&str>) -> ResolvedPayload {
    ResolvedPayload { address: "0xABC".to_string(), expires: expires.map(|e| e.to_string()) }
}

fn at(seconds: i64, nanos: u32) -> Timestamp {
    Timestamp { seconds, nanos }
}

#[test]
fn expiry_one_second_ago_is_expired() {
    let expires = payload(Some("2024-01-01T00:00:00Z"));
    assert_eq!(enforce_expires_at(&expires, at(1704067201, 0)), Err(ResolveError::Expired));
    assert_eq!(check_expiry(at(1704067200, 0), at(1704067201, 0)), Err(ResolveError::Expired));
    assert_eq!(check_expiry(at(99, 500), at(100, 500)), Err(ResolveError::Expired));
}

#[test]
fn expiry_in_one_second_is_accepted() {
    let expires = payload(Some("2024-01-01T00:00:00Z"));
    assert_eq!(enforce_expires_at(&expires, at(1704067199, 0)), Ok(()));
    assert_eq!(check_expiry(at(1704067200, 0), at(1704067199, 0)), Ok(()));
    assert_eq!(check_expiry(at(101, 500), at(100, 500)), Ok(()));
}

#[test]
fn expiry_that_is_now_is_expired() {
    let expires = payload(Some("2024-01-01T00:00:00Z"));
    assert_eq!(enforce_expires_at(&expires, at(1704067200, 0)), Err(ResolveError::Expired));
    assert_eq!(check_expiry(at(0, 0), at(0, 0)), Err(ResolveError::Expired));
    assert_eq!(check_expiry(at(-5, 7), at(-5, 7)), Err(ResolveError::Expired));
}

#[test]
fn expiry_is_compared_to_the_nanosecond() {
    let expires = payload(Some("2024-01-01T00:00:00.5Z"));
    assert_eq!(enforce_expires_at(&expires, at(1704067200, 499_999_999)), Ok(()));
    assert_eq!(enforce_expires_at(&expires, at(1704067200, 500_000_000)), Err(ResolveError::Expired));
    assert_eq!(enforce_expires_at(&expires, at(1704067200, 500_000_001)), Err(ResolveError::Expired));
    assert_eq!(check_expiry(at(10, 1), at(10, 0)), Ok(()));
    assert_eq!(check_expiry(at(10, 0), at(10, 1)), Err(ResolveError::Expired));
    assert_eq!(check_expiry(at(10, 999_999_999), at(11, 0)), Err(ResolveError::Expired));
    assert_eq!(check_expiry(at(11, 0), at(10, 999_999_999)), Ok(()));
}

#[test]
fn expiry_is_read_with_its_offset() {
    let plus = payload(Some("2024-01-01T01:00:00+01:00"));
    assert_eq!(enforce_expires_at(&plus, at(1704067199, 999_999_999)), Ok(()));
    assert_eq!(enforce_expires_at(&plus, at(1704067200, 0)), Err(ResolveError::Expired));
    let minus = payload(Some("2023-12-31T16:00:00-08:00"));
    assert_eq!(enforce_expires_at(&minus, at(1704067199, 999_999_999)), Ok(()));
    assert_eq!(enforce_expires_at(&minus, at(1704067200, 0)), Err(ResolveError::Expired));
}

#[test]
fn expiry_before_the_epoch_is_negative() {
    let expires = payload(Some("1969-12-31T23:59:59Z"));
    assert_eq!(enforce_expires_at(&expires, at(-2, 999_999_999)), Ok(()));
    assert_eq!(enforce_expires_at(&expires, at(-1, 0)), Err(ResolveError::Expired));
}

#[test]
fn far_expiry_is_read_exactly() {
    let expires = payload(Some("2999-12-31T23:59:59Z"));
    assert_eq!(enforce_expires_at(&expires, at(32503679998, 999_999_999)), Ok(()));
    assert_eq!(enforce_expires_at(&expires, at(32503679999, 0)), Err(ResolveError::Expired));
}

#[test]
fn missing_expiry_is_an_error() {
    assert_eq!(enforce_expires_at(&payload(None), at(0, 0)), Err(ResolveError::MissingExpiry));
    assert_eq!(enforce_expires(&payload(None)), Err(ResolveError::MissingExpiry));
}

#[test]
fn unreadable_expiry_is_a_malformed_payload() {
    for text in ["", "tomorrow", "2024-01-01", "2024-01-01T00:00:00", "1704067200", "2024-13-01T00:00:00Z"] {
        assert_eq!(
            enforce_expires_at(&payload(Some(text)), at(0, 0)),
            Err(ResolveError::MalformedPayload)
        );
        assert_eq!(enforce_expires(&payload(Some(text))), Err(ResolveError::MalformedPayload));
    }
}

#[test]
fn clock_is_read_for_the_present() {
    assert_eq!(enforce_expires(&payload(Some("2001-01-01T00:00:00Z"))), Err(ResolveError::Expired));
    assert_eq!(enforce_expires(&payload(Some("2999-12-31T23:59:59Z"))), Ok(()));
}

#[test]
fn earlier_instant_is_at_or_before() {
    assert!(at(1, 0).is_at_or_before(&at(2, 0)));
    assert!(at(1, 5).is_at_or_before(&at(1, 5)));
    assert!(at(1, 5).is_at_or_before(&at(1, 6)));
    assert!(!at(1, 6).is_at_or_before(&at(1, 5)));
    assert!(!at(2, 0).is_at_or_before(&at(1, 999_999_999)));
    assert!(at(-1, 999_999_999).is_at_or_before(&at(0, 0)));
}
