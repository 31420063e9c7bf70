use vstd::prelude::*;
use crate::clock::get_current_time;

verus! {

/// How long an issued token stays valid: one month of 31 days, in seconds.
pub const TOKEN_LIFETIME_SECS: u64 = 3600 * 24 * 31;

/// How close to its expiry a token is replaced by a fresh one: eight days,
/// in seconds.
pub const REFRESH_TIME_BEFORE_EXPIRY: u64 = 3600 * 24 * 8;

/// The claims carried by a session token.
#[derive(Clone, Debug, PartialEq, Eq)]
pub struct JwtClaims {
    pub username: String,
    /// Expiry, in seconds since the Unix epoch.
    pub exp: u64,
    /// The access group of the token's holder.
    pub group: u8,
}

impl JwtClaims {
    /// Claims for `username` issued at time `now`: they expire one token
    /// lifetime later and carry group `0`. `None` when that expiry does not
    /// fit in a `u64`.
    pub fn new_at(username: &str, now: u64) -> (claims: Option<Self>)
        ensures
            claims is None <==> now + TOKEN_LIFETIME_SECS > u64::MAX,
            claims matches Some(c) ==> {
                &&& c.username@ == username@
                &&& c.exp == now + TOKEN_LIFETIME_SECS
                &&& c.group == 0
            },
    {
        match now.checked_add(TOKEN_LIFETIME_SECS) {
            Some(exp) => Some(JwtClaims { username: username.to_owned(), exp, group: 0 }),
            None => None,
        }
    }

    /// Claims for `username` issued now, by the system clock: they expire one
    /// token lifetime from now and carry group `0`. `None` when the clock
    /// cannot be read as seconds since the epoch or the expiry overflows.
    pub fn new(username: &str) -> (claims: Option<Self>)
        ensures
            claims matches Some(c) ==> {
                &&& c.username@ == username@
                &&& c.exp >= TOKEN_LIFETIME_SECS
                &&& c.group == 0
            },
    {
        match get_current_time() {
            Some(now) => Self::new_at(username, now),
            None => None,
        }
    }
}

} // verus!
