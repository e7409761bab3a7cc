use base64::Engine;
use forecap_backend::auth::{
    build_payload, check_auth, extract_auth_headers, validate_signature, validate_timestamp,
    within_skew, AuthHeaders, Instant,
};
use forecap_backend::errors::ApiError;

const TS: &str = "2024-05-01T12:00:00Z";
const TS_SECS: i64 = 1714564800;

fn sign_of(payload: &str) -> String {
    base64::engine::general_purpose::STANDARD.encode(payload)
}

fn headers(ts: Option<&str>, uid: Option<&str>, sign: Option<&str>) -> AuthHeaders {
    AuthHeaders {
        timestamp: ts.map(|s| s.to_string()),
        user_id: uid.map(|s| s.to_string()),
        sign: sign.map(|s| s.to_string()),
    }
}

fn at(secs: i64) -> Instant {
    Instant { secs, nanos: 0 }
}

fn unauthorized_message(r: Result<i64, ApiError>) -> String {
    match r {
        Err(ApiError::Unauthorized(m)) => m,
        other => panic!("expected unauthorized, got {:?}", other),
    }
}

#[test]
fn accepts_valid_signature_with_secret() {
    let sign = sign_of("2024-05-01T12:00:00Zs3cret42");
    let h = headers(Some(TS), Some("42"), Some(&sign));
    assert_eq!(check_auth(&h, Some("s3cret"), at(TS_SECS)).unwrap(), 42);
}

#[test]
fn accepts_valid_signature_without_secret() {
    let sign = sign_of("2024-05-01T12:00:00Z42");
    let h = headers(Some(TS), Some("42"), Some(&sign));
    assert_eq!(check_auth(&h, None, at(TS_SECS)).unwrap(), 42);
    assert_eq!(check_auth(&h, Some(""), at(TS_SECS)).unwrap(), 42);
}

#[test]
fn payload_derivation() {
    assert_eq!(build_payload("T", "7", Some("k")), "Tk7");
    assert_eq!(build_payload("T", "7", Some("")), "T7");
    assert_eq!(build_payload("T", "7", None), "T7");
}

#[test]
fn signature_with_known_value() {
    // base64("ab1") == "YWIx"
    assert!(validate_signature("a", "1", "YWIx", Some("b")).is_ok());
    assert!(validate_signature("a", "1", "YWIy", Some("b")).is_err());
}

#[test]
fn skew_boundary_exactly_ten_minutes_passes() {
    let sign = sign_of("2024-05-01T12:00:00Z42");
    let h = headers(Some(TS), Some("42"), Some(&sign));
    assert!(check_auth(&h, None, at(TS_SECS + 600)).is_ok());
    assert!(check_auth(&h, None, at(TS_SECS - 600)).is_ok());
}

#[test]
fn skew_boundary_one_second_beyond_fails() {
    let sign = sign_of("2024-05-01T12:00:00Z42");
    let h = headers(Some(TS), Some("42"), Some(&sign));
    let past = unauthorized_message(check_auth(&h, None, at(TS_SECS + 601)));
    assert_eq!(past, "Timestamp expired or too far in future (max 10 minutes)");
    let future = unauthorized_message(check_auth(&h, None, at(TS_SECS - 601)));
    assert_eq!(future, "Timestamp expired or too far in future (max 10 minutes)");
}

#[test]
fn stale_timestamp_fails_even_with_bad_signature() {
    let h = headers(Some(TS), Some("42"), Some("bogus"));
    let m = unauthorized_message(check_auth(&h, None, at(TS_SECS + 3600)));
    assert_eq!(m, "Timestamp expired or too far in future (max 10 minutes)");
}

#[test]
fn within_skew_sub_second() {
    assert!(within_skew(Instant { secs: 600, nanos: 0 }, at(0)));
    assert!(!within_skew(Instant { secs: 600, nanos: 1 }, at(0)));
    assert!(within_skew(at(0), Instant { secs: 599, nanos: 999_999_999 }));
}

#[test]
fn every_single_character_mutation_fails() {
    let sign = sign_of("2024-05-01T12:00:00Z42");
    let now = at(TS_SECS);
    for i in 0..sign.len() {
        let mut bytes = sign.clone().into_bytes();
        bytes[i] = if bytes[i] == b'A' { b'B' } else { b'A' };
        let mutated = String::from_utf8(bytes).unwrap();
        let h = headers(Some(TS), Some("42"), Some(&mutated));
        assert_eq!(unauthorized_message(check_auth(&h, None, now)), "Invalid signature");
    }
}

#[test]
fn missing_headers_fail_in_order() {
    let now = at(TS_SECS);
    let m = unauthorized_message(check_auth(&headers(None, None, None), None, now));
    assert_eq!(m, "Missing header: timestamp");
    let m = unauthorized_message(check_auth(&headers(Some("junk"), None, None), None, now));
    assert_eq!(m, "Missing header: user_id");
    let m = unauthorized_message(check_auth(&headers(Some("junk"), Some("x"), None), None, now));
    assert_eq!(m, "Missing header: sign");
}

#[test]
fn invalid_user_id_before_timestamp() {
    let h = headers(Some("junk"), Some("12a"), Some("s"));
    assert_eq!(unauthorized_message(check_auth(&h, None, at(0))), "Invalid user_id");
}

#[test]
fn invalid_timestamp_before_signature() {
    let h = headers(Some("yesterday"), Some("12"), Some("s"));
    assert_eq!(unauthorized_message(check_auth(&h, None, at(0))), "Invalid timestamp format");
}

#[test]
fn validate_timestamp_with_offset() {
    assert!(validate_timestamp("2024-05-01T14:05:00+02:00", at(TS_SECS)).is_ok());
    assert!(validate_timestamp("2024-05-01T12:20:00Z", at(TS_SECS)).is_err());
}

#[test]
fn negative_user_id_is_accepted() {
    let sign = sign_of("2024-05-01T12:00:00Z-5");
    let h = headers(Some(TS), Some("-5"), Some(&sign));
    assert_eq!(check_auth(&h, None, at(TS_SECS)).unwrap(), -5);
}

#[test]
fn extract_with_current_clock() {
    let ts = chrono::Utc::now().to_rfc3339();
    let sign = sign_of(&format!("{ts}9"));
    let h = headers(Some(&ts), Some("9"), Some(&sign));
    assert_eq!(extract_auth_headers(&h, None).unwrap(), 9);
    let stale = headers(Some(TS), Some("9"), Some(&sign_of("2024-05-01T12:00:00Z9")));
    assert!(extract_auth_headers(&stale, None).is_err());
}
