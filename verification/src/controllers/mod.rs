//! Access to the service's storage.

pub mod db;
