//! Authentication core of a small web service: the rules that decide whether
//! a request carries a usable session token, how claims are issued and
//! refreshed, how stored passwords are checked, how user records are read
//! from and written to the user table, and how each failure is answered.

pub mod error;
pub mod app_config;
pub mod clock;
pub mod ctx;
pub mod jwt_claims;
pub mod user;
pub mod mw;
pub mod api;
pub mod controllers;
pub mod laws;
