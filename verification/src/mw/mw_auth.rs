use vstd::prelude::*;
use crate::ctx::Ctx;
use crate::error::Error;
use crate::jwt_claims::{JwtClaims, REFRESH_TIME_BEFORE_EXPIRY};

verus! {

/// The token from the request's auth cookie, or the error for a request
/// without one.
pub open spec fn spec_require_auth_token(auth_token: Option<String>) -> Result<String, Error> {
    match auth_token {
        Some(t) => Ok(t),
        None => Err(Error::AuthFailNoAuthTokenCookie),
    }
}

/// A request passes only with an auth cookie; the token is handed on.
pub fn require_auth_token(auth_token: Option<String>) -> (r: Result<String, Error>)
    ensures
        r == spec_require_auth_token(auth_token),
        auth_token matches Some(t) ==> r == Ok::<String, Error>(t),
        auth_token is None ==> r == Err::<String, Error>(Error::AuthFailNoAuthTokenCookie),
{
    match auth_token {
        Some(t) => Ok(t),
        None => Err(Error::AuthFailNoAuthTokenCookie),
    }
}

/// What a token yields once it has been decoded and its signature checked:
/// `decoded` is `None` when that failed. A token that expired before `now`
/// is refused; any other yields its claims unchanged.
pub open spec fn spec_check_claims(decoded: Option<JwtClaims>, now: u64) -> Result<JwtClaims, Error> {
    match decoded {
        None => Err(Error::AuthFailTokenWrongFormat),
        Some(c) => if c.exp < now {
            Err(Error::AuthFailTokenExpired)
        } else {
            Ok(c)
        },
    }
}

/// Judges a decoded token at time `now` (seconds since the epoch).
pub fn check_claims(decoded: Option<JwtClaims>, now: u64) -> (r: Result<JwtClaims, Error>)
    ensures
        r == spec_check_claims(decoded, now),
        r is Ok <==> (decoded is Some && decoded->0.exp >= now),
        r matches Ok(c) ==> c.exp >= now && decoded == Some(c),
        decoded is None ==> r == Err::<JwtClaims, Error>(Error::AuthFailTokenWrongFormat),
        (decoded matches Some(c) && c.exp < now) ==> r == Err::<JwtClaims, Error>(
            Error::AuthFailTokenExpired,
        ),
{
    match decoded {
        None => Err(Error::AuthFailTokenWrongFormat),
        Some(c) => {
            if c.exp < now {
                Err(Error::AuthFailTokenExpired)
            } else {
                Ok(c)
            }
        },
    }
}

/// Whether the holder of claims of group `group` may see pages for users.
pub open spec fn spec_user_or_higher(group: u8) -> bool {
    group >= 1
}

/// Whether the holder of claims of group `group` may see pages for parents.
pub open spec fn spec_parent_or_higher(group: u8) -> bool {
    group >= 2
}

/// Lets the request through only for group `1` and above.
pub fn mw_require_user_or_higher(jwt: &JwtClaims) -> (r: Result<(), Error>)
    ensures
        r is Ok <==> spec_user_or_higher(jwt.group),
        r is Ok <==> jwt.group >= 1,
        r matches Err(e) ==> e == Error::AuthFailGroupTooLow,
{
    if jwt.group < 1 {
        return Err(Error::AuthFailGroupTooLow);
    }
    Ok(())
}

/// Lets the request through only for group `2` and above.
pub fn mw_require_parent_or_higher(jwt: &JwtClaims) -> (r: Result<(), Error>)
    ensures
        r is Ok <==> spec_parent_or_higher(jwt.group),
        r is Ok <==> jwt.group >= 2,
        r matches Err(e) ==> e == Error::AuthFailGroupTooLow,
{
    if jwt.group < 2 {
        return Err(Error::AuthFailGroupTooLow);
    }
    Ok(())
}

/// A token expiring at `expiry` is replaced at time `now` once fewer than
/// `REFRESH_TIME_BEFORE_EXPIRY` seconds are left before its expiry.
pub open spec fn spec_needs_refresh(expiry: u64, now: u64) -> bool {
    expiry - REFRESH_TIME_BEFORE_EXPIRY < now
}

/// Whether a token expiring at `expiry` is to be replaced at time `now`.
pub fn needs_refresh(expiry: u64, now: u64) -> (r: bool)
    ensures
        r == spec_needs_refresh(expiry, now),
        r <==> expiry < now + REFRESH_TIME_BEFORE_EXPIRY,
{
    expiry < REFRESH_TIME_BEFORE_EXPIRY || expiry - REFRESH_TIME_BEFORE_EXPIRY < now
}

/// The context built from accepted claims, and whether a fresh token is to
/// be issued for their holder (with their group) at time `now`.
pub fn session_for_claims(claims: JwtClaims, now: u64) -> (r: (Ctx, bool))
    ensures
        r.0@ == claims.username@,
        r.1 == spec_needs_refresh(claims.exp, now),
{
    let refresh = needs_refresh(claims.exp, now);
    (Ctx::new(claims.username), refresh)
}

} // verus!
