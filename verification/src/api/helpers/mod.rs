//! Helpers shared by the API endpoints.

pub mod password;
