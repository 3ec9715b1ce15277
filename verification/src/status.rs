//! HTTP status codes as plain numbers, checked by the `http` crate that
//! salvo re-exports.
use vstd::prelude::*;
use salvo::http::StatusCode;

verus! {

/// Whether `code` is accepted as an HTTP status code: three digits, from
/// 100 to 999.
pub open spec fn is_status_code(code: int) -> bool {
    100 <= code < 1000
}

/// `StatusCode::from_u16`, read back with `StatusCode::as_u16`. The `http`
/// source refuses a number below 100 or from 1000 on and keeps any other
/// number as it is, so the code comes back unchanged exactly when it is in
/// that range.
#[verifier::external_body]
pub(crate) fn status_from_u16(code: u16) -> (r: Option<u16>)
    ensures
        r == (if is_status_code(code as int) { Some(code) } else { None::<u16> }),
{
    match StatusCode::from_u16(code) {
        Ok(status) => Some(status.as_u16()),
        Err(_) => None,
    }
}

/// The number of `StatusCode::BAD_REQUEST`, which the `http` crate defines
/// as 400.
#[verifier::external_body]
pub(crate) fn bad_request() -> (r: u16)
    ensures
        r == 400,
{
    StatusCode::BAD_REQUEST.as_u16()
}

/// The number of `StatusCode::UNAUTHORIZED`, which the `http` crate defines
/// as 401.
#[verifier::external_body]
pub(crate) fn unauthorized() -> (r: u16)
    ensures
        r == 401,
{
    StatusCode::UNAUTHORIZED.as_u16()
}

/// The number of `StatusCode::FORBIDDEN`, which the `http` crate defines
/// as 403.
#[verifier::external_body]
pub(crate) fn forbidden() -> (r: u16)
    ensures
        r == 403,
{
    StatusCode::FORBIDDEN.as_u16()
}

/// The status a requested code resolves to: the code itself where it is a
/// status code, else 400 (Bad Request).
pub open spec fn resolve_status(code: u16) -> u16 {
    if is_status_code(code as int) { code } else { 400 }
}

/// Whatever number is asked for, the error is answered with a status code,
/// and it is the number asked for exactly when that number is one.
pub proof fn lemma_resolved_status(code: u16)
    ensures
        is_status_code(resolve_status(code) as int),
        (resolve_status(code) == code) <==> is_status_code(code as int),
{
}

/// Resolves a requested code as `StatusCode::from_u16(code)
/// .unwrap_or(StatusCode::BAD_REQUEST)` does.
pub fn resolve_status_code(code: u16) -> (r: u16)
    ensures
        r == resolve_status(code),
        is_status_code(r as int),
{
    match status_from_u16(code) {
        Some(status) => status,
        None => bad_request(),
    }
}

} // verus!
