//! The rules applied to every request that needs an authenticated caller.

use vstd::prelude::*;

pub mod mw_auth;

verus! {

/// The name of the cookie that carries the session token.
pub const AUTH_TOKEN: &'static str = "auth-token";

} // verus!
