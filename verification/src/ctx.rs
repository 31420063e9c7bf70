use vstd::prelude::*;

verus! {

/// What a request handler knows about the authenticated caller.
#[derive(Clone, Debug)]
pub struct Ctx {
    username: String,
}

impl View for Ctx {
    type V = Seq<char>;

    /// The caller's username.
    closed spec fn view(&self) -> Seq<char> {
        self.username@
    }
}

impl Ctx {
    /// A context for the caller `username`.
    pub fn new(username: String) -> (ctx: Self)
        ensures
            ctx@ == username@,
    {
        Self { username }
    }

    /// The caller's username.
    pub fn username(&self) -> (name: String)
        ensures
            name@ == self@,
    {
        self.username.clone()
    }
}

} // verus!
