use vstd::prelude::*;

verus! {

/// The service's settings, read from its configuration file.
#[derive(Clone, Debug, PartialEq, Eq)]
pub struct AppConfig {
    pub jwt_secret_key: String,
    pub users_table: String,
}

} // verus!
