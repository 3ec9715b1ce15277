//! Tokens and the guard that answers requests whose token did not pass.
use vstd::prelude::*;
use time::{Duration, OffsetDateTime};
use crate::error_catch::{AnyHttpError, HttpErrorKind};
use crate::status::{forbidden, unauthorized};

verus! {

/// The claims the server puts in its tokens: who, and until when (a Unix
/// timestamp in seconds).
pub struct JwtClaims {
    pub username: String,
    pub exp: i64,
}

/// jsonwebtoken's error type, carried through unchanged.
#[verifier::external_type_specification]
#[verifier::external_body]
pub struct ExJwtError(jsonwebtoken::errors::Error);

/// The token `jsonwebtoken::encode` makes with the default header (HS256)
/// from the key `secret` and the claims whose JSON text is `claims_json`,
/// taken verbatim, or `None` where it makes none (the text is not JSON).
pub uninterp spec fn hs256_token(secret: Seq<char>, claims_json: Seq<char>) -> Option<Seq<char>>;

/// `jsonwebtoken::encode` with the default header (HS256) and the key
/// `EncodingKey::from_secret` of the secret's bytes, on the claims held as
/// serde_json's `RawValue`, which checks that the text is JSON (an error is
/// returned as jsonwebtoken's error) and serialises it verbatim. HMAC
/// signing depends on the key and the claims' text alone, so the result is
/// named by them.
#[verifier::external_body]
fn encode_hs256(secret: &str, claims_json: &str) -> (r: Result<String, jsonwebtoken::errors::Error>)
    ensures
        r is Ok <==> hs256_token(secret@, claims_json@) is Some,
        r matches Ok(token) ==> hs256_token(secret@, claims_json@) == Some(token@),
{
    let claims = serde_json::value::RawValue::from_string(claims_json.to_string())?;
    jsonwebtoken::encode(
        &jsonwebtoken::Header::default(),
        &claims,
        &jsonwebtoken::EncodingKey::from_secret(secret.as_bytes()),
    )
}

/// Signs the claims written as the JSON text `claims_json` into a JSON Web
/// Token with HS256 and the key `secret_key`.
pub fn gen_token(secret_key: String, claims_json: &str) -> (r: Result<String, jsonwebtoken::errors::Error>)
    ensures
        r is Ok <==> hs256_token(secret_key@, claims_json@) is Some,
        r matches Ok(token) ==> hs256_token(secret_key@, claims_json@) == Some(token@),
{
    encode_hs256(secret_key.as_str(), claims_json)
}

/// How far in the future a token expires.
#[derive(Clone, Copy, Debug, PartialEq, Eq, Structural)]
pub enum ExpireSpan {
    Days(i64),
    Weeks(i64),
    Hours(i64),
    Minutes(i64),
    Seconds(i64),
}

/// The span in seconds, as `time::Duration::days` and its siblings build
/// it: the count times the seconds of the unit, or `None` where that
/// product leaves the range of `i64` (where `time` panics).
pub open spec fn spec_span_seconds(span: ExpireSpan) -> Option<i64> {
    let (count, unit) = match span {
        ExpireSpan::Days(n) => (n as int, 86400int),
        ExpireSpan::Weeks(n) => (n as int, 604800int),
        ExpireSpan::Hours(n) => (n as int, 3600int),
        ExpireSpan::Minutes(n) => (n as int, 60int),
        ExpireSpan::Seconds(n) => (n as int, 1int),
    };
    if i64::MIN <= count * unit <= i64::MAX {
        Some((count * unit) as i64)
    } else {
        None
    }
}

/// The span in seconds, or `None` where it does not fit in an `i64`.
pub fn span_seconds(span: ExpireSpan) -> (r: Option<i64>)
    ensures
        r == spec_span_seconds(span),
{
    match span {
        ExpireSpan::Days(n) => n.checked_mul(86400),
        ExpireSpan::Weeks(n) => n.checked_mul(604800),
        ExpireSpan::Hours(n) => n.checked_mul(3600),
        ExpireSpan::Minutes(n) => n.checked_mul(60),
        ExpireSpan::Seconds(n) => Some(n),
    }
}

/// The earliest Unix timestamp `time` can hold (the start of year -9999).
pub open spec fn min_timestamp() -> int {
    -377705116800
}

/// The latest Unix timestamp `time` can hold (the end of year 9999).
pub open spec fn max_timestamp() -> int {
    253402300799
}

/// Whether `time` can hold the moment of a Unix timestamp.
pub open spec fn timestamp_in_range(ts: int) -> bool {
    min_timestamp() <= ts <= max_timestamp()
}

/// The Unix timestamp `secs` seconds after the Unix timestamp `ts`, or
/// `None` where either moment lies outside the dates `time` can hold.
pub open spec fn timestamp_after(ts: i64, secs: i64) -> Option<i64> {
    if timestamp_in_range(ts as int) && timestamp_in_range(ts + secs) {
        Some((ts + secs) as i64)
    } else {
        None
    }
}

/// `OffsetDateTime::from_unix_timestamp(ts)` moved by `checked_add` of
/// `Duration::seconds(secs)` and read back with `unix_timestamp`. In the
/// `time` source (without `large-dates`), `from_unix_timestamp` accepts
/// exactly the timestamps from the start of year -9999 to the end of year
/// 9999, `checked_add` gives `None` exactly when the sum leaves those
/// dates, and adding a duration moves the moment by that many seconds.
#[verifier::external_body]
fn checked_add_seconds(ts: i64, secs: i64) -> (r: Option<i64>)
    ensures
        r == timestamp_after(ts, secs),
{
    match OffsetDateTime::from_unix_timestamp(ts) {
        Ok(at) => match at.checked_add(Duration::seconds(secs)) {
            Some(later) => Some(later.unix_timestamp()),
            None => None,
        },
        Err(_) => None,
    }
}

/// `OffsetDateTime::now_utc().unix_timestamp()`: the current time, of which
/// nothing can be stated.
#[verifier::external_body]
fn unix_now() -> i64 {
    OffsetDateTime::now_utc().unix_timestamp()
}

/// The moment `span` after the Unix timestamp `now`.
pub open spec fn spec_expire_at(now: i64, span: ExpireSpan) -> Option<i64> {
    match spec_span_seconds(span) {
        Some(secs) => timestamp_after(now, secs),
        None => None,
    }
}

/// The Unix timestamp `span` after `now`: `None` where the span does not
/// fit in seconds or the moment lies beyond the dates `time` can hold.
pub fn expire_time_at(now: i64, span: ExpireSpan) -> (r: Option<i64>)
    ensures
        r == spec_expire_at(now, span),
        r matches Some(t) ==> spec_span_seconds(span) matches Some(secs) && t == now + secs,
{
    match span_seconds(span) {
        Some(secs) => checked_add_seconds(now, secs),
        None => None,
    }
}

/// The expiry is counted from the given moment for every kind of span:
/// `n` days, weeks, hours, minutes or seconds after `now` is `now` plus
/// `n` times 86400, 604800, 3600, 60 or 1 seconds, when that moment and
/// `now` are dates `time` can hold (from the start of year -9999 to the
/// end of year 9999), and `None` otherwise.
pub proof fn lemma_expiry_counts_from_now(now: i64, span: ExpireSpan)
    ensures
        ({
            let later: int = match span {
                ExpireSpan::Days(n) => now + n * 86400,
                ExpireSpan::Weeks(n) => now + n * 604800,
                ExpireSpan::Hours(n) => now + n * 3600,
                ExpireSpan::Minutes(n) => now + n * 60,
                ExpireSpan::Seconds(n) => now + n,
            };
            let fits: bool = match span {
                ExpireSpan::Days(n) => i64::MIN <= n * 86400 <= i64::MAX,
                ExpireSpan::Weeks(n) => i64::MIN <= n * 604800 <= i64::MAX,
                ExpireSpan::Hours(n) => i64::MIN <= n * 3600 <= i64::MAX,
                ExpireSpan::Minutes(n) => i64::MIN <= n * 60 <= i64::MAX,
                ExpireSpan::Seconds(n) => true,
            };
            if fits && -377705116800 <= now <= 253402300799 && -377705116800 <= later
                <= 253402300799 {
                spec_expire_at(now, span) == Some(later as i64)
            } else {
                spec_expire_at(now, span) is None
            }
        }),
{
}

/// The Unix timestamp `span` from now, for the `exp` claim of a token.
pub fn expire_time(span: ExpireSpan) -> (r: Option<i64>)
    ensures
        exists|now: i64| r == spec_expire_at(now, span),
{
    let now = unix_now();
    expire_time_at(now, span)
}

/// Where the token check of a request ended, as salvo's `JwtAuthState`
/// reports it.
#[derive(Clone, Copy, Debug, PartialEq, Eq, Structural)]
pub enum AuthState {
    Authorized,
    Unauthorized,
    Forbidden,
}

/// What the guard does with a request.
pub enum GuardAction {
    /// Let the request through to the next handler.
    CallNext,
    /// Answer with this status and message, and skip the rest of the chain.
    Reject(u16, HttpErrorKind),
}

/// A middleware that lets authorized requests through and answers the
/// others with the message `f` builds for their state.
pub struct AuthGuard<F: Fn(AuthState) -> AnyHttpError> {
    f: F,
}

impl<F: Fn(AuthState) -> AnyHttpError> AuthGuard<F> {
    /// The function that builds the answer's message.
    pub closed spec fn handler(&self) -> F {
        self.f
    }

    /// A guard answering refused requests with what `f` builds.
    pub fn new(f: F) -> (r: Self)
        ensures
            r.handler() == f,
    {
        Self { f }
    }

    /// The guard's decision: an authorized request goes on, without `f`
    /// being called; an unauthorized one is answered 401 and a forbidden one
    /// 403, with the message of the error `f` returns for that state (its
    /// status is not used).
    pub fn decide(&self, state: AuthState) -> (r: GuardAction)
        requires
            state != AuthState::Authorized ==> call_requires(self.handler(), (state,)),
        ensures
            state == AuthState::Authorized ==> r is CallNext,
            state != AuthState::Authorized ==> (r matches GuardAction::Reject(code, msg) && code == (
            if state == AuthState::Unauthorized {
                401u16
            } else {
                403u16
            }) && exists|e: AnyHttpError|
                call_ensures(self.handler(), (state,), e) && msg == e.parts().1),
    {
        match state {
            AuthState::Authorized => GuardAction::CallNext,
            AuthState::Unauthorized => {
                let (_, msg) = (self.f)(AuthState::Unauthorized).into_response();
                GuardAction::Reject(unauthorized(), msg)
            },
            AuthState::Forbidden => {
                let (_, msg) = (self.f)(AuthState::Forbidden).into_response();
                GuardAction::Reject(forbidden(), msg)
            },
        }
    }
}

} // verus!
