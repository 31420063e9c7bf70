use jwt_auth::ctx::Ctx;
use jwt_auth::error::Error;
use jwt_auth::jwt_claims::{JwtClaims, REFRESH_TIME_BEFORE_EXPIRY, TOKEN_LIFETIME_SECS};
use jwt_auth::mw::mw_auth::{
    check_claims, mw_require_parent_or_higher, mw_require_user_or_higher, needs_refresh,
    require_auth_token, session_for_claims,
};
use jwt_auth::mw::AUTH_TOKEN;
use jwt_auth::clock::get_current_time;

fn claims(username: &str, exp: u64, group: u8) -> JwtClaims {
    JwtClaims { username: username.to_string(), exp, group }
}

#[test]
fn error_responses() {
    let cases: Vec<(Error, u16, &str)> = vec![
        (Error::AuthFailNoAuthTokenCookie, 401, "No token"),
        (Error::AuthFailTokenWrongFormat, 401, "Wrong token"),
        (Error::AuthFailTokenExpired, 401, "Expired token"),
        (Error::AuthFailUserNotFound, 401, "User not found"),
        (Error::AuthFailIncorrectPassword, 401, "Incorrect password"),
        (Error::QueryFailNoUsername, 400, "Missing username in request"),
        (Error::QueryFailNoPassword, 400, "Missing password in request"),
        (Error::DBFailFieldNotFound("email".to_string()), 500, "Database error"),
        (Error::DBFailFieldEmpty("password".to_string()), 500, "Database error"),
        (Error::AuthFailUserAlreadyExists, 500, "Error"),
        (Error::AuthFailGroupTooLow, 500, "Error"),
        (Error::DBFailedToCreateUser, 500, "Error"),
        (Error::DBConnectionFail, 500, "Error"),
    ];
    for (e, status, msg) in cases {
        assert_eq!(e.response_parts(), (status, msg), "{:?}", e);
    }
}

#[test]
fn ctx_keeps_username() {
    let ctx = Ctx::new("alice@example.com".to_string());
    assert_eq!(ctx.username(), "alice@example.com");
    assert_eq!(ctx.username(), ctx.username());
}

#[test]
fn claims_issued_at_a_time() {
    let c = JwtClaims::new_at("bob", 1_000).unwrap();
    assert_eq!(c, claims("bob", 1_000 + 2_678_400, 0));
    assert_eq!(TOKEN_LIFETIME_SECS, 2_678_400);
    assert!(JwtClaims::new_at("bob", u64::MAX - TOKEN_LIFETIME_SECS).is_some());
    assert!(JwtClaims::new_at("bob", u64::MAX - TOKEN_LIFETIME_SECS + 1).is_none());
}

#[test]
fn claims_issued_now() {
    let before = get_current_time().unwrap();
    let c = JwtClaims::new("carol").unwrap();
    let after = get_current_time().unwrap();
    assert_eq!(c.username, "carol");
    assert_eq!(c.group, 0);
    assert!(before + TOKEN_LIFETIME_SECS <= c.exp && c.exp <= after + TOKEN_LIFETIME_SECS);
}

#[test]
fn clock_reads_a_plausible_time() {
    let now = get_current_time().unwrap();
    // 2020-09-13 in seconds since the epoch.
    assert!(now > 1_600_000_000);
}

#[test]
fn auth_cookie_required() {
    assert_eq!(require_auth_token(None), Err(Error::AuthFailNoAuthTokenCookie));
    assert_eq!(require_auth_token(Some("abc".to_string())), Ok("abc".to_string()));
    assert_eq!(AUTH_TOKEN, "auth-token");
}

#[test]
fn token_checks() {
    assert_eq!(check_claims(None, 10), Err(Error::AuthFailTokenWrongFormat));
    assert_eq!(check_claims(Some(claims("d", 9, 1)), 10), Err(Error::AuthFailTokenExpired));
    assert_eq!(check_claims(Some(claims("d", 10, 1)), 10), Ok(claims("d", 10, 1)));
    assert_eq!(check_claims(Some(claims("d", 11, 2)), 10), Ok(claims("d", 11, 2)));
}

#[test]
fn group_guards() {
    assert_eq!(mw_require_user_or_higher(&claims("e", 0, 0)), Err(Error::AuthFailGroupTooLow));
    assert_eq!(mw_require_user_or_higher(&claims("e", 0, 1)), Ok(()));
    assert_eq!(mw_require_parent_or_higher(&claims("e", 0, 1)), Err(Error::AuthFailGroupTooLow));
    assert_eq!(mw_require_parent_or_higher(&claims("e", 0, 2)), Ok(()));
    assert_eq!(mw_require_parent_or_higher(&claims("e", 0, 255)), Ok(()));
}

#[test]
fn law_parent_implies_user_on_all_groups() {
    for g in 0..=255u8 {
        if mw_require_parent_or_higher(&claims("f", 0, g)).is_ok() {
            assert!(mw_require_user_or_higher(&claims("f", 0, g)).is_ok());
        }
    }
}

#[test]
fn refresh_decisions() {
    assert_eq!(REFRESH_TIME_BEFORE_EXPIRY, 691_200);
    let exp = 10_000_000;
    assert!(!needs_refresh(exp, exp - REFRESH_TIME_BEFORE_EXPIRY));
    assert!(needs_refresh(exp, exp - REFRESH_TIME_BEFORE_EXPIRY + 1));
    assert!(needs_refresh(exp, exp));
    // An expiry closer to the epoch than the refresh window is always due.
    assert!(needs_refresh(5, 0));
}

#[test]
fn law_refresh_stays_due() {
    let exp = 5_000_000;
    let mut due = false;
    for now in (4_000_000..6_000_000).step_by(10_007) {
        let d = needs_refresh(exp, now);
        assert!(!due || d);
        due = d;
    }
    assert!(due);
}

#[test]
fn law_fresh_claims_accepted_and_not_due() {
    let now = 1_700_000_000;
    let c = JwtClaims::new_at("gina", now).unwrap();
    assert_eq!(check_claims(Some(c.clone()), now), Ok(c.clone()));
    assert!(!needs_refresh(c.exp, now));
    assert_eq!(check_claims(Some(c.clone()), c.exp), Ok(c.clone()));
    assert_eq!(check_claims(Some(c.clone()), c.exp + 1), Err(Error::AuthFailTokenExpired));
}

#[test]
fn session_from_claims() {
    let (ctx, refresh) = session_for_claims(claims("hank", 1_000_000, 1), 999_999);
    assert_eq!(ctx.username(), "hank");
    assert!(refresh);
    let (ctx, refresh) = session_for_claims(claims("hank", 2_000_000, 1), 1_000_000);
    assert_eq!(ctx.username(), "hank");
    assert!(!refresh);
}

#[test]
fn law_issued_claims_accepted_until_expiry() {
    let issued = 1_650_000_000;
    let c = JwtClaims::new_at("pia", issued).unwrap();
    for now in [issued, issued + 1, issued + TOKEN_LIFETIME_SECS / 2, c.exp] {
        assert_eq!(check_claims(Some(c.clone()), now), Ok(c.clone()));
    }
}
