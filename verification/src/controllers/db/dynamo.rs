use vstd::prelude::*;
use crate::error::Error;
use crate::user::User;

verus! {

/// The cohort under which this service's users are stored.
pub const SECTION: &'static str = "jwt-auth";

/// The name under which a new user is known until told otherwise.
pub const DEFAULT_KNOWN_AS: &'static str = "GG";

/// The value of one attribute of a stored item, as far as the service reads
/// it: a string, or a value of any other kind.
#[derive(Clone, Debug, PartialEq, Eq)]
pub enum AttrValue {
    S(String),
    Other,
}

/// A stored item: its attributes by name. Items handed over from the table
/// name each attribute once.
pub type Item = Vec<(String, AttrValue)>;

/// The value of attribute `key` in `item` (the first entry of that name).
pub open spec fn spec_attr(item: Seq<(String, AttrValue)>, key: Seq<char>) -> Option<AttrValue>
    decreases item.len(),
{
    if item.len() == 0 {
        None
    } else if item[0].0@ == key {
        Some(item[0].1)
    } else {
        spec_attr(item.drop_first(), key)
    }
}

/// Whether no two attributes of `item` have the same name, as in an item the
/// table hands over.
pub open spec fn unique_keys(item: Seq<(String, AttrValue)>) -> bool {
    forall|i: int, j: int| 0 <= i < j < item.len() ==> item[i].0@ != item[j].0@
}

/// Whether `item` has a string attribute `key` with text `text`, wherever it
/// stands in the item.
pub open spec fn has_text_attr(item: Seq<(String, AttrValue)>, key: Seq<char>, text: Seq<char>) -> bool {
    exists|i: int|
        0 <= i < item.len() && #[trigger] item[i].0@ == key && item[i].1 is S
            && attr_text(item[i].1) == text
}

/// In an item with unique attribute names, an attribute is found wherever
/// it stands.
pub proof fn lemma_attr_at(item: Seq<(String, AttrValue)>, i: int)
    requires
        unique_keys(item),
        0 <= i < item.len(),
    ensures
        spec_attr(item, item[i].0@) == Some(item[i].1),
    decreases i,
{
    if i > 0 {
        let rest = item.drop_first();
        assert(unique_keys(rest)) by {
            assert forall|a: int, b: int| 0 <= a < b < rest.len() implies rest[a].0@ != rest[b].0@ by {
                assert(rest[a] == item[a + 1] && rest[b] == item[b + 1]);
            }
        }
        assert(rest[i - 1] == item[i]);
        lemma_attr_at(rest, i - 1);
    }
}

/// The text of a string attribute.
pub open spec fn attr_text(v: AttrValue) -> Seq<char> {
    match v {
        AttrValue::S(s) => s@,
        AttrValue::Other => Seq::empty(),
    }
}

/// The position of attribute `key` in `item`, if it has one.
fn find_attr(item: &Item, key: &String) -> (r: Option<usize>)
    ensures
        match r {
            Some(i) => i < item@.len() && spec_attr(item@, key@) == Some(item@[i as int].1),
            None => spec_attr(item@, key@) is None,
        },
{
    let mut i: usize = 0;
    assert(item@.skip(0) =~= item@);
    while i < item.len()
        invariant
            i <= item@.len(),
            spec_attr(item@, key@) == spec_attr(item@.skip(i as int), key@),
        decreases item@.len() - i,
    {
        assert(item@.skip(i as int).drop_first() =~= item@.skip(i + 1));
        if item[i].0 == *key {
            return Some(i);
        }
        i = i + 1;
    }
    None
}

/// The text of the string attribute at position `i`.
fn text_at(item: &Item, i: usize) -> (s: String)
    requires
        i < item@.len(),
        item@[i as int].1 is S,
    ensures
        s@ == attr_text(item@[i as int].1),
{
    match &item[i].1 {
        AttrValue::S(s) => s.clone(),
        AttrValue::Other => String::new(),
    }
}

/// Whether an item can be read without a fault: a present `email` is a
/// string, and so is a present `known_as` after a string `email`.
pub open spec fn item_readable(item: Seq<(String, AttrValue)>) -> bool {
    &&& spec_attr(item, "email"@) matches Some(e) ==> e is S
    &&& spec_attr(item, "email"@) is Some ==> (spec_attr(item, "known_as"@) matches Some(k) ==> k is S)
}

/// What reading `item` as a user gives: the first of `email`, `known_as`,
/// `password` that is missing is reported, a password that is not a string
/// is reported as empty, and otherwise the user with those texts and group `0`.
pub open spec fn read_outcome(item: Seq<(String, AttrValue)>, r: Result<Option<User>, Error>) -> bool {
    match spec_attr(item, "email"@) {
        None => r matches Err(Error::DBFailFieldNotFound(f)) && f@ == "email"@,
        Some(e) => match spec_attr(item, "known_as"@) {
            None => r matches Err(Error::DBFailFieldNotFound(f)) && f@ == "known_as"@,
            Some(k) => match spec_attr(item, "password"@) {
                None => r matches Err(Error::DBFailFieldNotFound(f)) && f@ == "password"@,
                Some(AttrValue::Other) => r matches Err(Error::DBFailFieldEmpty(f)) && f@
                    == "password"@,
                Some(AttrValue::S(p)) => r matches Ok(Some(u)) && u.email@ == attr_text(e)
                    && u.known_as@ == attr_text(k) && u.password@ == p@ && u.group == 0,
            },
        },
    }
}

/// Reads the user from the item the table returned for a lookup; `found` is
/// `None` when the table holds no such item.
pub fn user_from_item(found: Option<Item>) -> (r: Result<Option<User>, Error>)
    requires
        found matches Some(item) ==> item_readable(item@),
    ensures
        found is None ==> r == Ok::<Option<User>, Error>(None),
        found matches Some(item) ==> read_outcome(item@, r),
{
    let item = match found {
        None => return Ok(None),
        Some(item) => item,
    };
    let email_key = "email".to_owned();
    let email = match find_attr(&item, &email_key) {
        None => return Err(Error::DBFailFieldNotFound(email_key)),
        Some(i) => text_at(&item, i),
    };
    let known_as_key = "known_as".to_owned();
    let known_as = match find_attr(&item, &known_as_key) {
        None => return Err(Error::DBFailFieldNotFound(known_as_key)),
        Some(i) => text_at(&item, i),
    };
    let password_key = "password".to_owned();
    let password = match find_attr(&item, &password_key) {
        None => return Err(Error::DBFailFieldNotFound(password_key)),
        Some(i) => match &item[i].1 {
            AttrValue::S(p) => p.clone(),
            AttrValue::Other => return Err(Error::DBFailFieldEmpty(password_key)),
        },
    };
    Ok(Some(User { email, known_as, password, group: 0 }))
}

/// The outcome of a request sent to the user table: its answer, or
/// `DBConnectionFail` when the request failed (`sent` is `None`).
pub fn db_answer<T>(sent: Option<T>) -> (r: Result<T, Error>)
    ensures
        match sent {
            Some(a) => r == Ok::<T, Error>(a),
            None => r == Err::<T, Error>(Error::DBConnectionFail),
        },
{
    match sent {
        Some(a) => Ok(a),
        None => Err(Error::DBConnectionFail),
    }
}

/// The key under which the user `username` is looked up.
pub fn user_key(username: String) -> (key: Item)
    ensures
        key@.len() == 2,
        key@[0].0@ == "email"@,
        key@[0].1 matches AttrValue::S(s) && s@ == username@,
        key@[1].0@ == "cohort"@,
        key@[1].1 matches AttrValue::S(s) && s@ == SECTION@,
{
    let mut key: Item = Vec::new();
    key.push(("email".to_owned(), AttrValue::S(username)));
    key.push(("cohort".to_owned(), AttrValue::S(SECTION.to_owned())));
    key
}

/// Whether `item` is the item stored for a new user with `username` and
/// stored password `password`.
pub open spec fn is_new_user_item(item: Seq<(String, AttrValue)>, username: Seq<char>, password: Seq<char>) -> bool {
    &&& item.len() == 4
    &&& item[0].0@ == "email"@
    &&& item[0].1 matches AttrValue::S(s) && s@ == username
    &&& item[1].0@ == "password"@
    &&& item[1].1 matches AttrValue::S(s) && s@ == password
    &&& item[2].0@ == "cohort"@
    &&& item[2].1 matches AttrValue::S(s) && s@ == SECTION@
    &&& item[3].0@ == "known_as"@
    &&& item[3].1 matches AttrValue::S(s) && s@ == DEFAULT_KNOWN_AS@
}

/// The item stored for a new user with `username` and stored password
/// `password`.
pub fn new_user_item(username: String, password: String) -> (item: Item)
    ensures
        is_new_user_item(item@, username@, password@),
{
    let mut item: Item = Vec::new();
    item.push(("email".to_owned(), AttrValue::S(username)));
    item.push(("password".to_owned(), AttrValue::S(password)));
    item.push(("cohort".to_owned(), AttrValue::S(SECTION.to_owned())));
    item.push(("known_as".to_owned(), AttrValue::S(DEFAULT_KNOWN_AS.to_owned())));
    item
}

} // verus!
