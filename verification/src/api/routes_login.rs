use vstd::prelude::*;
use vstd::utf8::encode_utf8;
use crate::api::helpers::password::{
    lemma_salt_len, spec_password_matches, spec_stored_password, splittable, stored_password,
    verify_password, spec_raw_password_hash, HASH_LENGTH, SALT,
};
use crate::error::Error;
use crate::user::User;

verus! {

/// The query parameters of the login and sign-up endpoints.
#[derive(Clone, Debug, PartialEq, Eq)]
pub struct LoginPayload {
    pub username: Option<String>,
    pub password: Option<String>,
}

/// Login, before the user table is consulted: a request without a username
/// is refused.
pub open spec fn spec_login_username(username: Option<String>) -> Result<String, Error> {
    match username {
        Some(u) => Ok(u),
        None => Err(Error::AuthFailUserNotFound),
    }
}

/// The username a login request names.
pub fn login_username(username: Option<String>) -> (r: Result<String, Error>)
    ensures
        r == spec_login_username(username),
        username matches Some(u) ==> r == Ok::<String, Error>(u),
        username is None ==> r == Err::<String, Error>(Error::AuthFailUserNotFound),
{
    match username {
        Some(u) => Ok(u),
        None => Err(Error::AuthFailUserNotFound),
    }
}

/// Login, once the user table has answered with `user`: the user must exist,
/// a password must be given, and it must match the stored one.
pub open spec fn spec_check_login(user: Option<User>, password: Option<String>) -> Result<User, Error> {
    match user {
        None => Err(Error::QueryFailNoUsername),
        Some(u) => match password {
            None => Err(Error::QueryFailNoPassword),
            Some(p) => if spec_password_matches(encode_utf8(u.password@), encode_utf8(p@)) {
                Ok(u)
            } else {
                Err(Error::AuthFailIncorrectPassword)
            },
        },
    }
}

/// Whether the login check can run on these inputs: the stored password can
/// be split into salt and hash, and the given password is not too long to hash.
pub open spec fn login_checkable(user: Option<User>, password: Option<String>) -> bool {
    user matches Some(u) ==> (password matches Some(p) ==> {
        &&& splittable(u.password@)
        &&& encode_utf8(p@).len() <= 0xFFFF_FFFF
    })
}

/// Decides a login once the user has been looked up; the user is handed on
/// for the token to be issued.
pub fn check_login(user: Option<User>, password: Option<String>) -> (r: Result<User, Error>)
    requires
        login_checkable(user, password),
    ensures
        r == spec_check_login(user, password),
{
    match user {
        None => Err(Error::QueryFailNoUsername),
        Some(u) => match password {
            None => Err(Error::QueryFailNoPassword),
            Some(p) => {
                match verify_password(u.password.as_str(), p.as_str()) {
                    Ok(()) => Ok(u),
                    Err(e) => Err(e),
                }
            },
        },
    }
}

/// Sign-up, before the user table is consulted: a request without a
/// username is refused.
pub open spec fn spec_sign_up_username(username: Option<String>) -> Result<String, Error> {
    match username {
        Some(u) => Ok(u),
        None => Err(Error::QueryFailNoUsername),
    }
}

/// The username a sign-up request names.
pub fn sign_up_username(username: Option<String>) -> (r: Result<String, Error>)
    ensures
        r == spec_sign_up_username(username),
        username matches Some(u) ==> r == Ok::<String, Error>(u),
        username is None ==> r == Err::<String, Error>(Error::QueryFailNoUsername),
{
    match username {
        Some(u) => Ok(u),
        None => Err(Error::QueryFailNoUsername),
    }
}

/// Decides a sign-up once the user table has been asked for the username:
/// an existing user is refused, a password must be given, and the result is
/// the stored form of that password under the default salt, to be written
/// to the user table with the new user.
pub fn check_sign_up(existing: Option<User>, password: Option<String>) -> (r: Result<String, Error>)
    requires
        existing is None ==> (password matches Some(p) ==> encode_utf8(p@).len() <= 0xFFFF_FFFF),
    ensures
        existing is Some ==> r == Err::<String, Error>(Error::AuthFailUserAlreadyExists),
        existing is None ==> match password {
            None => r == Err::<String, Error>(Error::QueryFailNoPassword),
            Some(p) => r matches Ok(h) && h@ == spec_stored_password(p@, SALT@)
                && spec_raw_password_hash(encode_utf8(p@), encode_utf8(SALT@)).len() == HASH_LENGTH,
        },
{
    if existing.is_some() {
        Err(Error::AuthFailUserAlreadyExists)
    } else {
        match password {
            Some(p) => {
                proof {
                    lemma_salt_len();
                }
                Ok(stored_password(p.as_str(), SALT))
            },
            None => Err(Error::QueryFailNoPassword),
        }
    }
}

} // verus!
