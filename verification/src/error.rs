use vstd::prelude::*;

verus! {

/// Every way a request can be refused by the service.
#[derive(Debug, Clone, PartialEq, Eq)]
pub enum Error {
    AuthFailNoAuthTokenCookie,
    AuthFailTokenWrongFormat,
    AuthFailTokenExpired,
    AuthFailUserNotFound,
    AuthFailIncorrectPassword,
    AuthFailUserAlreadyExists,
    AuthFailGroupTooLow,
    QueryFailNoUsername,
    QueryFailNoPassword,
    DBFailFieldNotFound(String),
    DBFailFieldEmpty(String),
    DBFailedToCreateUser,
    DBConnectionFail,
}

/// HTTP status "401 Unauthorized".
pub const STATUS_UNAUTHORIZED: u16 = 401;
/// HTTP status "400 Bad Request".
pub const STATUS_BAD_REQUEST: u16 = 400;
/// HTTP status "500 Internal Server Error".
pub const STATUS_INTERNAL_SERVER_ERROR: u16 = 500;

/// The status code with which an error is answered.
pub open spec fn spec_status(e: Error) -> u16 {
    match e {
        Error::AuthFailNoAuthTokenCookie
        | Error::AuthFailTokenWrongFormat
        | Error::AuthFailTokenExpired
        | Error::AuthFailUserNotFound
        | Error::AuthFailIncorrectPassword => STATUS_UNAUTHORIZED,
        Error::QueryFailNoUsername | Error::QueryFailNoPassword => STATUS_BAD_REQUEST,
        _ => STATUS_INTERNAL_SERVER_ERROR,
    }
}

/// The message carried in the `"error"` field of the answer's JSON body.
pub open spec fn spec_message(e: Error) -> Seq<char> {
    match e {
        Error::AuthFailNoAuthTokenCookie => "No token"@,
        Error::AuthFailTokenWrongFormat => "Wrong token"@,
        Error::AuthFailTokenExpired => "Expired token"@,
        Error::AuthFailUserNotFound => "User not found"@,
        Error::AuthFailIncorrectPassword => "Incorrect password"@,
        Error::QueryFailNoUsername => "Missing username in request"@,
        Error::QueryFailNoPassword => "Missing password in request"@,
        Error::DBFailFieldNotFound(_) | Error::DBFailFieldEmpty(_) => "Database error"@,
        _ => "Error"@,
    }
}

impl Error {
    /// The status code and the message with which this error is answered.
    pub fn response_parts(&self) -> (r: (u16, &'static str))
        ensures
            r.0 == spec_status(*self),
            r.1@ == spec_message(*self),
    {
        match self {
            Error::AuthFailNoAuthTokenCookie => (STATUS_UNAUTHORIZED, "No token"),
            Error::AuthFailTokenWrongFormat => (STATUS_UNAUTHORIZED, "Wrong token"),
            Error::AuthFailTokenExpired => (STATUS_UNAUTHORIZED, "Expired token"),
            Error::AuthFailUserNotFound => (STATUS_UNAUTHORIZED, "User not found"),
            Error::AuthFailIncorrectPassword => (STATUS_UNAUTHORIZED, "Incorrect password"),
            Error::QueryFailNoUsername => (STATUS_BAD_REQUEST, "Missing username in request"),
            Error::QueryFailNoPassword => (STATUS_BAD_REQUEST, "Missing password in request"),
            Error::DBFailFieldNotFound(_) => (STATUS_INTERNAL_SERVER_ERROR, "Database error"),
            Error::DBFailFieldEmpty(_) => (STATUS_INTERNAL_SERVER_ERROR, "Database error"),
            _ => (STATUS_INTERNAL_SERVER_ERROR, "Error"),
        }
    }
}

} // verus!
