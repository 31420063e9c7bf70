//! The rules behind the service's API endpoints.

pub mod helpers;
pub mod routes_login;
