use pam_jwt_issuer::error::{ApiError, BadRequestReason};
use pam_jwt_issuer::replay::validate;

const STALE: ApiError = ApiError::BadRequest(BadRequestReason::StaleTimestamp);

#[test]
fn fresh_timestamp_passes() {
    assert_eq!(validate(1_700_000_000, 1_700_000_000, 60), Ok(()));
    assert_eq!(validate(1_700_000_000, 1_700_000_030, 60), Ok(()));
}

#[test]
fn window_boundary_is_inclusive() {
    assert_eq!(validate(1_700_000_000, 1_700_000_060, 60), Ok(()));
    assert_eq!(validate(1_700_000_000, 1_700_000_061, 60), Err(STALE));
}

#[test]
fn future_timestamp_is_never_tolerated() {
    assert_eq!(validate(1_700_000_001, 1_700_000_000, 60), Err(STALE));
    assert_eq!(validate(i64::MAX, 0, i64::MAX), Err(STALE));
}

#[test]
fn zero_window_admits_only_the_present() {
    assert_eq!(validate(5, 5, 0), Ok(()));
    assert_eq!(validate(4, 5, 0), Err(STALE));
}

#[test]
fn negative_window_admits_nothing() {
    assert_eq!(validate(5, 5, -1), Err(STALE));
    assert_eq!(validate(6, 5, -1), Err(STALE));
    assert_eq!(validate(4, 5, -1), Err(STALE));
}

#[test]
fn extreme_ages_do_not_wrap() {
    assert_eq!(validate(i64::MIN, i64::MAX, i64::MAX), Err(STALE));
    assert_eq!(validate(i64::MIN, i64::MAX, 60), Err(STALE));
    assert_eq!(validate(-1, i64::MAX - 1, i64::MAX), Ok(()));
    assert_eq!(validate(i64::MIN, i64::MIN, 0), Ok(()));
}

#[test]
fn stale_is_a_bad_request_not_an_auth_failure() {
    let error = validate(0, 1_000, 60).unwrap_err();
    assert_eq!(error.status_code(), 400);
    assert_eq!(error.message(), "stale or future timestamp");
}
