use vstd::prelude::*;

verus! {

/// A row of the user table.
#[derive(Clone, Debug, PartialEq, Eq)]
pub struct User {
    pub email: String,
    pub known_as: String,
    /// The stored password: a salt of sixteen bytes followed by the hash.
    pub password: String,
    /// The access group; `1` and above may see user pages, `2` and above
    /// parent pages.
    pub group: u8,
}

} // verus!
