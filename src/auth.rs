//! Request authentication: three headers, a bounded clock skew and a
//! base64 signature over the timestamp, an optional shared secret and the
//! user id.
use vstd::prelude::*;
use vstd::string::*;
use base64::Engine;
use chrono::{DateTime, Utc};
use crate::decimal::{parse_i64, parsed_i64};
use crate::errors::{result_view, ApiError, ApiErrorView};

verus! {

/// Largest accepted distance between the claimed timestamp and the server
/// clock, in nanoseconds (ten minutes).
pub const MAX_SKEW_NANOS: i128 = 600_000_000_000;

pub const NANOS_PER_SECOND: i128 = 1_000_000_000;

/// A point in time: whole seconds since the Unix epoch and a sub-second part
/// in nanoseconds.
#[derive(Clone, Copy, Debug, PartialEq, Eq, Structural)]
pub struct Instant {
    pub secs: i64,
    pub nanos: u32,
}

impl Instant {
    pub open spec fn total_nanos(self) -> int {
        self.secs as int * NANOS_PER_SECOND + self.nanos as int
    }
}

/// The three authentication headers as received; `None` when a header is
/// absent or its value is not visible text.
#[derive(Clone, Debug)]
pub struct AuthHeaders {
    pub timestamp: Option<String>,
    pub user_id: Option<String>,
    pub sign: Option<String>,
}

pub struct AuthHeadersView {
    pub timestamp: Option<Seq<char>>,
    pub user_id: Option<Seq<char>>,
    pub sign: Option<Seq<char>>,
}

pub open spec fn opt_string_view(o: Option<String>) -> Option<Seq<char>> {
    match o {
        Some(s) => Some(s@),
        None => None,
    }
}

pub open spec fn opt_str_view(o: Option<&str>) -> Option<Seq<char>> {
    match o {
        Some(s) => Some(s@),
        None => None,
    }
}

impl View for AuthHeaders {
    type V = AuthHeadersView;

    open spec fn view(&self) -> AuthHeadersView {
        AuthHeadersView {
            timestamp: opt_string_view(self.timestamp),
            user_id: opt_string_view(self.user_id),
            sign: opt_string_view(self.sign),
        }
    }
}

/// The instant that chrono reads from an RFC 3339 text, as epoch seconds and
/// sub-second nanoseconds; `None` when the text is not accepted.
pub uninterp spec fn rfc3339_instant(s: Seq<char>) -> Option<(i64, u32)>;

/// The standard base64 encoding, with padding, of the UTF-8 bytes of `s`.
pub uninterp spec fn base64_standard(s: Seq<char>) -> Seq<char>;

pub open spec fn instant_of(p: Option<(i64, u32)>) -> Option<Instant> {
    match p {
        Some((secs, nanos)) => Some(Instant { secs, nanos }),
        None => None,
    }
}

/// Relies on `<DateTime<Utc> as FromStr>::from_str` (RFC 3339, relaxed) and
/// on `DateTime::timestamp` / `timestamp_subsec_nanos`: the result depends
/// on the text alone.
#[verifier::external_body]
fn parse_timestamp(s: &str) -> (r: Option<Instant>)
    ensures
        r == instant_of(rfc3339_instant(s@)),
{
    s.parse::<DateTime<Utc>>().ok().map(
        |d| Instant { secs: d.timestamp(), nanos: d.timestamp_subsec_nanos() },
    )
}

/// Relies on `chrono::Utc::now`: the current time, read from the system clock.
#[verifier::external_body]
fn utc_now() -> (r: Instant) {
    let d = Utc::now();
    Instant { secs: d.timestamp(), nanos: d.timestamp_subsec_nanos() }
}

/// Relies on `base64::engine::general_purpose::STANDARD.encode`: standard
/// alphabet with padding; empty input gives empty output.
#[verifier::external_body]
fn encode_base64(payload: &str) -> (r: String)
    ensures
        r@ == base64_standard(payload@),
        payload@.len() == 0 ==> r@.len() == 0,
{
    base64::engine::general_purpose::STANDARD.encode(payload)
}

pub open spec fn missing_header_message(name: Seq<char>) -> Seq<char> {
    "Missing header: "@ + name
}

pub open spec fn invalid_user_id_message() -> Seq<char> {
    "Invalid user_id"@
}

pub open spec fn invalid_timestamp_message() -> Seq<char> {
    "Invalid timestamp format"@
}

pub open spec fn expired_message() -> Seq<char> {
    "Timestamp expired or too far in future (max 10 minutes)"@
}

pub open spec fn invalid_signature_message() -> Seq<char> {
    "Invalid signature"@
}

/// The claimed instant lies within the allowed skew of `now`, on either side.
pub open spec fn skew_within_bound(now: Instant, at: Instant) -> bool {
    let d = now.total_nanos() - at.total_nanos();
    -MAX_SKEW_NANOS <= d && d <= MAX_SKEW_NANOS
}

/// The text that is signed: timestamp, then the secret when one is
/// configured and non-empty, then the raw user id.
pub open spec fn signature_payload(
    timestamp: Seq<char>,
    user_id: Seq<char>,
    secret: Option<Seq<char>>,
) -> Seq<char> {
    match secret {
        Some(s) => if s.len() > 0 {
            timestamp + s + user_id
        } else {
            timestamp + user_id
        },
        None => timestamp + user_id,
    }
}

/// The signature is exactly the base64 encoding of the payload.
pub open spec fn signature_accepted(
    timestamp: Seq<char>,
    user_id: Seq<char>,
    provided: Seq<char>,
    secret: Option<Seq<char>>,
) -> bool {
    provided == base64_standard(signature_payload(timestamp, user_id, secret))
}

pub open spec fn timestamp_outcome(timestamp: Seq<char>, now: Instant) -> Result<(), ApiErrorView> {
    match instant_of(rfc3339_instant(timestamp)) {
        None => Err(ApiErrorView::Unauthorized(invalid_timestamp_message())),
        Some(at) => if skew_within_bound(now, at) {
            Ok(())
        } else {
            Err(ApiErrorView::Unauthorized(expired_message()))
        },
    }
}

pub open spec fn signature_outcome(
    timestamp: Seq<char>,
    user_id: Seq<char>,
    provided: Seq<char>,
    secret: Option<Seq<char>>,
) -> Result<(), ApiErrorView> {
    if signature_accepted(timestamp, user_id, provided, secret) {
        Ok(())
    } else {
        Err(ApiErrorView::Unauthorized(invalid_signature_message()))
    }
}

/// The outcome of authenticating a request at time `now`. Checks run in this
/// order: header presence (timestamp, user_id, sign), user id syntax,
/// timestamp syntax, skew, signature.
pub open spec fn auth_outcome(
    h: AuthHeadersView,
    secret: Option<Seq<char>>,
    now: Instant,
) -> Result<i64, ApiErrorView> {
    if h.timestamp is None {
        Err(ApiErrorView::Unauthorized(missing_header_message("timestamp"@)))
    } else if h.user_id is None {
        Err(ApiErrorView::Unauthorized(missing_header_message("user_id"@)))
    } else if h.sign is None {
        Err(ApiErrorView::Unauthorized(missing_header_message("sign"@)))
    } else {
        let ts = h.timestamp->0;
        let uid = h.user_id->0;
        let sign = h.sign->0;
        match parsed_i64(uid) {
            None => Err(ApiErrorView::Unauthorized(invalid_user_id_message())),
            Some(id) => match timestamp_outcome(ts, now) {
                Err(e) => Err(e),
                Ok(_) => match signature_outcome(ts, uid, sign, secret) {
                    Err(e) => Err(e),
                    Ok(_) => Ok(id),
                },
            },
        }
    }
}

/// Whether `at` lies within the allowed skew of `now`.
pub fn within_skew(now: Instant, at: Instant) -> (r: bool)
    ensures
        r == skew_within_bound(now, at),
{
    let n: i128 = now.secs as i128 * NANOS_PER_SECOND + now.nanos as i128;
    let a: i128 = at.secs as i128 * NANOS_PER_SECOND + at.nanos as i128;
    let d: i128 = n - a;
    -MAX_SKEW_NANOS <= d && d <= MAX_SKEW_NANOS
}

/// Checks that the timestamp parses and lies within the skew bound of `now`.
pub fn validate_timestamp(timestamp: &str, now: Instant) -> (r: Result<(), ApiError>)
    ensures
        result_view(r) == timestamp_outcome(timestamp@, now),
{
    match parse_timestamp(timestamp) {
        None => Err(ApiError::unauthorized("Invalid timestamp format")),
        Some(at) => {
            if within_skew(now, at) {
                Ok(())
            } else {
                Err(ApiError::unauthorized("Timestamp expired or too far in future (max 10 minutes)"))
            }
        },
    }
}

/// Builds the signed payload for the given header values.
pub fn build_payload(timestamp: &str, user_id: &str, secret: Option<&str>) -> (r: String)
    ensures
        r@ == signature_payload(timestamp@, user_id@, opt_str_view(secret)),
{
    let mut payload = timestamp.to_owned();
    match secret {
        Some(s) => {
            if !s.is_empty() {
                payload.append(s);
            }
        },
        None => {},
    }
    payload.append(user_id);
    payload
}

/// Checks the provided signature against the base64 encoding of the payload,
/// by exact equality.
pub fn validate_signature(
    timestamp: &str,
    user_id: &str,
    provided: &str,
    signature_secret: Option<&str>,
) -> (r: Result<(), ApiError>)
    ensures
        result_view(r) == signature_outcome(
            timestamp@,
            user_id@,
            provided@,
            opt_str_view(signature_secret),
        ),
{
    let payload = build_payload(timestamp, user_id, signature_secret);
    let expected = encode_base64(payload.as_str());
    let provided_owned = provided.to_owned();
    if expected == provided_owned {
        Ok(())
    } else {
        Err(ApiError::unauthorized("Invalid signature"))
    }
}

/// Authenticates a request at time `now`, returning the user id on success.
pub fn check_auth(
    headers: &AuthHeaders,
    signature_secret: Option<&str>,
    now: Instant,
) -> (r: Result<i64, ApiError>)
    ensures
        result_view(r) == auth_outcome(headers@, opt_str_view(signature_secret), now),
{
    let timestamp = match &headers.timestamp {
        Some(t) => t,
        None => {
            let mut msg = "Missing header: ".to_owned();
            msg.append("timestamp");
            return Err(ApiError::Unauthorized(msg));
        },
    };
    let user_id_raw = match &headers.user_id {
        Some(u) => u,
        None => {
            let mut msg = "Missing header: ".to_owned();
            msg.append("user_id");
            return Err(ApiError::Unauthorized(msg));
        },
    };
    let sign = match &headers.sign {
        Some(s) => s,
        None => {
            let mut msg = "Missing header: ".to_owned();
            msg.append("sign");
            return Err(ApiError::Unauthorized(msg));
        },
    };
    let user_id = match parse_i64(user_id_raw.as_str()) {
        Some(id) => id,
        None => {
            return Err(ApiError::unauthorized("Invalid user_id"));
        },
    };
    match validate_timestamp(timestamp.as_str(), now) {
        Ok(_) => {},
        Err(e) => {
            return Err(e);
        },
    }
    match validate_signature(timestamp.as_str(), user_id_raw.as_str(), sign.as_str(), signature_secret) {
        Ok(_) => {},
        Err(e) => {
            return Err(e);
        },
    }
    Ok(user_id)
}

/// Authenticates a request against the current system time. Whatever the
/// clock reads, the outcome is that of [`check_auth`] at some instant.
pub fn extract_auth_headers(
    headers: &AuthHeaders,
    signature_secret: Option<&str>,
) -> (r: Result<i64, ApiError>)
    ensures
        exists|now: Instant|
            result_view(r) == #[trigger] auth_outcome(headers@, opt_str_view(signature_secret), now),
{
    let now = utc_now();
    let r = check_auth(headers, signature_secret, now);
    assert(result_view(r) == auth_outcome(headers@, opt_str_view(signature_secret), now));
    r
}

/// A request whose three headers are present, whose user id parses, whose
/// timestamp lies within ten minutes of `now` on either side, and whose
/// signature is the documented derivation, is accepted with that user id.
/// One whose timestamp lies outside that window is refused as unauthorized,
/// whatever its signature. Exactly ten minutes is inside; ten minutes and
/// one second is outside.
pub proof fn lemma_skew_window(
    timestamp: Seq<char>,
    user_id: Seq<char>,
    sign: Seq<char>,
    secret: Option<Seq<char>>,
    now: Instant,
)
    requires
        parsed_i64(user_id) is Some,
        instant_of(rfc3339_instant(timestamp)) is Some,
    ensures
        ({
            let h = AuthHeadersView { timestamp: Some(timestamp), user_id: Some(user_id), sign: Some(sign) };
            let at = instant_of(rfc3339_instant(timestamp))->0;
            &&& (skew_within_bound(now, at) && signature_accepted(timestamp, user_id, sign, secret)
                ==> auth_outcome(h, secret, now) == Ok::<i64, ApiErrorView>(parsed_i64(user_id)->0))
            &&& (!skew_within_bound(now, at) ==> auth_outcome(h, secret, now) == Err::<i64, ApiErrorView>(
                ApiErrorView::Unauthorized(expired_message())))
        }),
{
}

/// The skew bound is inclusive at ten minutes and excludes anything one
/// second beyond, in the past and in the future alike.
pub proof fn lemma_skew_boundary(at: Instant)
    requires
        i64::MIN + 601 <= at.secs <= i64::MAX - 601,
    ensures
        skew_within_bound(Instant { secs: (at.secs + 600) as i64, nanos: at.nanos }, at),
        skew_within_bound(Instant { secs: (at.secs - 600) as i64, nanos: at.nanos }, at),
        !skew_within_bound(Instant { secs: (at.secs + 601) as i64, nanos: at.nanos }, at),
        !skew_within_bound(Instant { secs: (at.secs - 601) as i64, nanos: at.nanos }, at),
{
}

/// The signature check accepts exactly the documented derivation, and no
/// single-character change of an accepted signature is accepted.
pub proof fn lemma_signature_exact(
    timestamp: Seq<char>,
    user_id: Seq<char>,
    provided: Seq<char>,
    secret: Option<Seq<char>>,
    i: int,
    c: char,
)
    requires
        0 <= i < provided.len(),
        provided[i] != c,
    ensures
        (signature_outcome(timestamp, user_id, provided, secret) is Ok) <==> provided
            == base64_standard(signature_payload(timestamp, user_id, secret)),
        signature_outcome(timestamp, user_id, provided, secret) is Ok ==> signature_outcome(
            timestamp,
            user_id,
            provided.update(i, c),
            secret,
        ) == Err::<(), ApiErrorView>(ApiErrorView::Unauthorized(invalid_signature_message())),
{
    assert(provided.update(i, c)[i] != provided[i]);
}

/// A request missing any of the three headers is refused as unauthorized,
/// naming the first missing header in the order timestamp, user_id, sign,
/// and the outcome depends neither on the clock nor on any header value that
/// a later check would read.
pub proof fn lemma_missing_header_first(
    h: AuthHeadersView,
    secret: Option<Seq<char>>,
    now1: Instant,
    now2: Instant,
)
    requires
        h.timestamp is None || h.user_id is None || h.sign is None,
    ensures
        auth_outcome(h, secret, now1) == auth_outcome(h, secret, now2),
        auth_outcome(h, secret, now1) == Err::<i64, ApiErrorView>(ApiErrorView::Unauthorized(
            missing_header_message(
                if h.timestamp is None {
                    "timestamp"@
                } else if h.user_id is None {
                    "user_id"@
                } else {
                    "sign"@
                },
            ),
        )),
{
}

} // verus!
