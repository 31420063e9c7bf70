//! Properties that relate several of the library's operations.

use vstd::prelude::*;
use vstd::utf8::*;
use crate::api::helpers::password::{
    argon2id_phc_string, argon2id_raw_hash, base64_digit, base64_no_pad, decimal, HASH_LANES,
    HASH_LENGTH, HASH_MEM_COST, HASH_TIME_COST,
    lemma_salt_len, spec_password_hash, spec_password_matches, spec_stored_password, splittable,
    SALT, STORED_SALT_LEN,
};
use crate::api::routes_login::{spec_check_login, spec_login_username, spec_sign_up_username};
use crate::controllers::db::dynamo::{
    attr_text, has_text_attr, spec_attr, is_new_user_item, item_readable, lemma_attr_at, read_outcome, unique_keys,
    AttrValue, DEFAULT_KNOWN_AS,
};
use crate::error::{spec_message, spec_status, Error};
use crate::jwt_claims::{JwtClaims, REFRESH_TIME_BEFORE_EXPIRY, TOKEN_LIFETIME_SECS};
use crate::mw::mw_auth::{
    spec_check_claims, spec_needs_refresh, spec_parent_or_higher, spec_require_auth_token,
    spec_user_or_higher,
};
use crate::user::User;

verus! {

/// Whoever may see parent pages may see user pages.
pub proof fn law_parent_implies_user(group: u8)
    requires
        spec_parent_or_higher(group),
    ensures
        spec_user_or_higher(group),
{
}

/// Claims issued at time `now` are accepted at that time, unchanged, and are
/// not yet due for replacement.
pub proof fn law_fresh_claims_accepted(claims: JwtClaims, now: u64)
    requires
        claims.exp == now + TOKEN_LIFETIME_SECS,
    ensures
        spec_check_claims(Some(claims), now) == Ok::<JwtClaims, Error>(claims),
        !spec_needs_refresh(claims.exp, now),
{
}

/// Claims issued at time `issued` (expiring one token lifetime later) are
/// accepted, with their username, expiry and group unchanged, at every time
/// from their issue up to and including their expiry.
pub proof fn law_issued_claims_accepted_until_expiry(claims: JwtClaims, issued: u64, now: u64)
    requires
        claims.exp == issued + TOKEN_LIFETIME_SECS,
        issued <= now <= claims.exp,
    ensures
        spec_check_claims(Some(claims), now) == Ok::<JwtClaims, Error>(claims),
{
}

/// A token is accepted exactly up to and including its expiry second, and
/// refused as expired after it.
pub proof fn law_accepted_until_expiry(claims: JwtClaims, now: u64)
    ensures
        now <= claims.exp ==> spec_check_claims(Some(claims), now) == Ok::<JwtClaims, Error>(claims),
        now > claims.exp ==> spec_check_claims(Some(claims), now) == Err::<JwtClaims, Error>(
            Error::AuthFailTokenExpired,
        ),
{
}

/// A token accepted at some time was accepted at every earlier time.
pub proof fn law_acceptance_earlier(decoded: Option<JwtClaims>, earlier: u64, later: u64)
    requires
        earlier <= later,
        spec_check_claims(decoded, later) is Ok,
    ensures
        spec_check_claims(decoded, earlier) == spec_check_claims(decoded, later),
{
}

/// Once a token is due for replacement it stays due; it is due exactly when
/// fewer than `REFRESH_TIME_BEFORE_EXPIRY` seconds are left before its expiry.
pub proof fn law_refresh_window(expiry: u64, earlier: u64, later: u64)
    requires
        earlier <= later,
    ensures
        spec_needs_refresh(expiry, earlier) ==> spec_needs_refresh(expiry, later),
        spec_needs_refresh(expiry, later) <==> expiry < later + REFRESH_TIME_BEFORE_EXPIRY,
{
}

/// UTF-8 encoding maps concatenation to concatenation.
proof fn lemma_encode_utf8_concat(a: Seq<char>, b: Seq<char>)
    ensures
        encode_utf8(a + b) == encode_utf8(a) + encode_utf8(b),
    decreases a.len(),
{
    if a.len() == 0 {
        assert(a + b =~= b);
        assert(encode_utf8(a) + encode_utf8(b) =~= encode_utf8(b));
    } else {
        assert((a + b).drop_first() =~= a.drop_first() + b);
        lemma_encode_utf8_concat(a.drop_first(), b);
        assert(encode_utf8(a + b) =~= encode_utf8(a) + encode_utf8(b));
    }
}

/// The place where two valid UTF-8 sequences are joined is a character
/// boundary.
proof fn lemma_join_is_char_boundary(x: Seq<u8>, y: Seq<u8>)
    requires
        valid_utf8(x),
        valid_utf8(y),
    ensures
        valid_utf8(x + y),
        is_char_boundary(x + y, x.len() as int),
{
    valid_utf8_concat(x, y);
    if y.len() == 0 {
        assert(x + y =~= x);
        is_char_boundary_start_end_of_seq(x);
    } else {
        is_char_boundary_start_end_of_seq(y);
        is_char_boundary_iff_is_leading_byte(y, 0);
        assert((x + y)[x.len() as int] == y[0]);
        is_char_boundary_iff_is_leading_byte(x + y, x.len() as int);
    }
}

/// A password stored as a salt of `STORED_SALT_LEN` bytes followed by the
/// hash of a password under that salt can be split, and accepts that password.
pub proof fn law_stored_password_accepts_its_password(salt: Seq<char>, password: Seq<char>)
    requires
        encode_utf8(salt).len() == STORED_SALT_LEN,
    ensures
        ({
            let stored = salt + spec_password_hash(encode_utf8(password), encode_utf8(salt));
            splittable(stored) && spec_password_matches(encode_utf8(stored), encode_utf8(password))
        }),
{
    let hash = spec_password_hash(encode_utf8(password), encode_utf8(salt));
    let stored = salt + hash;
    lemma_encode_utf8_concat(salt, hash);
    encode_utf8_valid_utf8(salt);
    encode_utf8_valid_utf8(hash);
    lemma_join_is_char_boundary(encode_utf8(salt), encode_utf8(hash));
    let bytes = encode_utf8(stored);
    assert(bytes.subrange(0, STORED_SALT_LEN as int) =~= encode_utf8(salt));
    assert(bytes.subrange(STORED_SALT_LEN as int, bytes.len() as int) =~= encode_utf8(hash));
}

/// A user whose stored password was made from a salt and a password logs in
/// with that password.
pub proof fn law_login_with_stored_password(user: User, salt: Seq<char>, password: String)
    requires
        encode_utf8(salt).len() == STORED_SALT_LEN,
        user.password@ == salt + spec_password_hash(encode_utf8(password@), encode_utf8(salt)),
    ensures
        spec_check_login(Some(user), Some(password)) == Ok::<User, Error>(user),
{
    law_stored_password_accepts_its_password(salt, password@);
}

/// An item with unique attribute names that holds the strings `email`,
/// `known_as` and `password`, in any order and beside any other attributes,
/// can be read, and reads back as the user with those texts and group `0`.
pub proof fn law_item_with_user_attributes_reads_back(
    item: Seq<(String, AttrValue)>,
    username: Seq<char>,
    known_as: Seq<char>,
    password: Seq<char>,
)
    requires
        unique_keys(item),
        has_text_attr(item, "email"@, username),
        has_text_attr(item, "known_as"@, known_as),
        has_text_attr(item, "password"@, password),
    ensures
        item_readable(item),
        forall|r: Result<Option<User>, Error>|
            #[trigger] read_outcome(item, r) ==> (r matches Ok(Some(u)) && u.email@ == username
                && u.known_as@ == known_as && u.password@ == password && u.group == 0),
{
    let ie = choose|i: int|
        0 <= i < item.len() && #[trigger] item[i].0@ == "email"@ && item[i].1 is S
            && attr_text(item[i].1) == username;
    let ik = choose|i: int|
        0 <= i < item.len() && #[trigger] item[i].0@ == "known_as"@ && item[i].1 is S
            && attr_text(item[i].1) == known_as;
    let ip = choose|i: int|
        0 <= i < item.len() && #[trigger] item[i].0@ == "password"@ && item[i].1 is S
            && attr_text(item[i].1) == password;
    lemma_attr_at(item, ie);
    lemma_attr_at(item, ik);
    lemma_attr_at(item, ip);
}

/// Whether the names `email`, `password`, `cohort` and `known_as` differ.
proof fn lemma_attribute_names_differ()
    ensures
        "email"@ != "password"@,
        "email"@ != "cohort"@,
        "email"@ != "known_as"@,
        "password"@ != "cohort"@,
        "password"@ != "known_as"@,
        "cohort"@ != "known_as"@,
{
    reveal_strlit("email");
    reveal_strlit("password");
    reveal_strlit("cohort");
    reveal_strlit("known_as");
    assert("email"@.len() == 5);
    assert("password"@.len() == 8);
    assert("cohort"@.len() == 6);
    assert("known_as"@.len() == 8);
    assert("known_as"@[0] != "password"@[0]);
}

/// The item written for a new user has unique attribute names and holds the
/// user's email, default name and stored password.
pub proof fn lemma_new_user_item_attributes(
    item: Seq<(String, AttrValue)>,
    username: Seq<char>,
    password: Seq<char>,
)
    requires
        is_new_user_item(item, username, password),
    ensures
        unique_keys(item),
        has_text_attr(item, "email"@, username),
        has_text_attr(item, "known_as"@, DEFAULT_KNOWN_AS@),
        has_text_attr(item, "password"@, password),
{
    lemma_attribute_names_differ();
    assert(item[0].0@ == "email"@);
    assert(item[1].0@ == "password"@);
    assert(item[3].0@ == "known_as"@);
}

/// The item written for a new user can be read, and reads back as that
/// user, known as the default name and in group `0`.
pub proof fn law_new_user_item_reads_back(
    item: Seq<(String, AttrValue)>,
    username: Seq<char>,
    password: Seq<char>,
)
    requires
        is_new_user_item(item, username, password),
    ensures
        item_readable(item),
        forall|r: Result<Option<User>, Error>|
            #[trigger] read_outcome(item, r) ==> (r matches Ok(Some(u)) && u.email@ == username
                && u.known_as@ == DEFAULT_KNOWN_AS@ && u.password@ == password && u.group == 0),
{
    lemma_new_user_item_attributes(item, username, password);
    law_item_with_user_attributes_reads_back(item, username, DEFAULT_KNOWN_AS@, password);
}

/// A user signed up with `password` (its stored form under the default salt
/// written with the user), and read back from the table in any attribute
/// order, logs in with that password.
pub proof fn law_sign_up_then_login(
    item: Seq<(String, AttrValue)>,
    username: Seq<char>,
    password: String,
)
    requires
        unique_keys(item),
        has_text_attr(item, "email"@, username),
        has_text_attr(item, "known_as"@, DEFAULT_KNOWN_AS@),
        has_text_attr(item, "password"@, spec_stored_password(password@, SALT@)),
    ensures
        item_readable(item),
        forall|r: Result<Option<User>, Error>|
            #[trigger] read_outcome(item, r) ==> (r matches Ok(Some(u)) && u.email@ == username
                && spec_check_login(Some(u), Some(password)) == Ok::<User, Error>(u)),
{
    let stored = spec_stored_password(password@, SALT@);
    law_item_with_user_attributes_reads_back(item, username, DEFAULT_KNOWN_AS@, stored);
    lemma_salt_len();
    assert forall|r: Result<Option<User>, Error>| #[trigger] read_outcome(item, r) implies (r matches Ok(Some(u))
        && u.email@ == username && spec_check_login(Some(u), Some(password)) == Ok::<User, Error>(u)) by {
        if let Ok(Some(u)) = r {
            law_login_with_stored_password(u, SALT@, password);
        }
    }
}

} // verus!
verus! {

proof fn lemma_base64_digit_injective(v: int, w: int)
    requires
        0 <= v < 64,
        0 <= w < 64,
        base64_digit(v) == base64_digit(w),
    ensures
        v == w,
{
}

proof fn lemma_group_bytes(x0: u8, x1: u8, x2: u8, y0: u8, y1: u8, y2: u8)
    requires
        x0 / 4 == y0 / 4,
        (x0 % 4) * 16 + x1 / 16 == (y0 % 4) * 16 + y1 / 16,
        (x1 % 16) * 4 + x2 / 64 == (y1 % 16) * 4 + y2 / 64,
        x2 % 64 == y2 % 64,
    ensures
        x0 == y0 && x1 == y1 && x2 == y2,
{
    assert(x0 == y0 && x1 == y1 && x2 == y2) by (bit_vector)
        requires
            x0 / 4 == y0 / 4,
            (x0 % 4) * 16 + x1 / 16 == (y0 % 4) * 16 + y1 / 16,
            (x1 % 16) * 4 + x2 / 64 == (y1 % 16) * 4 + y2 / 64,
            x2 % 64 == y2 % 64;
}

proof fn lemma_one_byte(x0: u8, y0: u8)
    requires
        x0 / 4 == y0 / 4,
        (x0 % 4) * 16 == (y0 % 4) * 16,
    ensures
        x0 == y0,
{
    assert(x0 == y0) by (bit_vector)
        requires
            x0 / 4 == y0 / 4,
            (x0 % 4) * 16 == (y0 % 4) * 16;
}

proof fn lemma_two_bytes(x0: u8, x1: u8, y0: u8, y1: u8)
    requires
        x0 / 4 == y0 / 4,
        (x0 % 4) * 16 + x1 / 16 == (y0 % 4) * 16 + y1 / 16,
        (x1 % 16) * 4 == (y1 % 16) * 4,
    ensures
        x0 == y0 && x1 == y1,
{
    assert(x0 == y0 && x1 == y1) by (bit_vector)
        requires
            x0 / 4 == y0 / 4,
            (x0 % 4) * 16 + x1 / 16 == (y0 % 4) * 16 + y1 / 16,
            (x1 % 16) * 4 == (y1 % 16) * 4;
}

/// The length of unpadded Base64 grows with the number of bytes.
proof fn lemma_base64_len(b: Seq<u8>)
    ensures
        b.len() == 0 ==> base64_no_pad(b).len() == 0,
        b.len() == 1 ==> base64_no_pad(b).len() == 2,
        b.len() == 2 ==> base64_no_pad(b).len() == 3,
        b.len() >= 3 ==> base64_no_pad(b).len() >= 4,
{
}

/// Unpadded Base64 tells byte sequences apart.
proof fn lemma_base64_injective(a: Seq<u8>, b: Seq<u8>)
    requires
        base64_no_pad(a) == base64_no_pad(b),
    ensures
        a == b,
    decreases a.len(),
{
    let ea = base64_no_pad(a);
    let eb = base64_no_pad(b);
    lemma_base64_len(a);
    lemma_base64_len(b);
    if a.len() == 0 || b.len() == 0 {
        assert(a.len() == 0 && b.len() == 0);
        assert(a =~= b);
    } else if a.len() == 1 || b.len() == 1 {
        assert(a.len() == 1 && b.len() == 1);
        let (x0, y0) = (a[0] as int, b[0] as int);
        assert(ea[0] == eb[0] && ea[1] == eb[1]);
        lemma_base64_digit_injective(x0 / 4, y0 / 4);
        lemma_base64_digit_injective((x0 % 4) * 16, (y0 % 4) * 16);
        lemma_one_byte(a[0], b[0]);
        assert(a =~= b);
    } else if a.len() == 2 || b.len() == 2 {
        assert(a.len() == 2 && b.len() == 2);
        let (x0, y0, x1, y1) = (a[0] as int, b[0] as int, a[1] as int, b[1] as int);
        assert(ea[0] == eb[0] && ea[1] == eb[1] && ea[2] == eb[2]);
        lemma_base64_digit_injective(x0 / 4, y0 / 4);
        lemma_base64_digit_injective((x0 % 4) * 16 + x1 / 16, (y0 % 4) * 16 + y1 / 16);
        lemma_base64_digit_injective((x1 % 16) * 4, (y1 % 16) * 4);
        lemma_two_bytes(a[0], a[1], b[0], b[1]);
        assert(a =~= b);
    } else {
        let (x0, y0, x1, y1, x2, y2) = (
            a[0] as int,
            b[0] as int,
            a[1] as int,
            b[1] as int,
            a[2] as int,
            b[2] as int,
        );
        assert(ea[0] == eb[0] && ea[1] == eb[1] && ea[2] == eb[2] && ea[3] == eb[3]);
        assert(ea[0] == base64_digit(x0 / 4) && eb[0] == base64_digit(y0 / 4));
        assert(ea[1] == base64_digit((x0 % 4) * 16 + x1 / 16));
        assert(eb[1] == base64_digit((y0 % 4) * 16 + y1 / 16));
        assert(ea[2] == base64_digit((x1 % 16) * 4 + x2 / 64));
        assert(eb[2] == base64_digit((y1 % 16) * 4 + y2 / 64));
        assert(ea[3] == base64_digit(x2 % 64) && eb[3] == base64_digit(y2 % 64));
        lemma_base64_digit_injective(x0 / 4, y0 / 4);
        lemma_base64_digit_injective((x0 % 4) * 16 + x1 / 16, (y0 % 4) * 16 + y1 / 16);
        lemma_base64_digit_injective((x1 % 16) * 4 + x2 / 64, (y1 % 16) * 4 + y2 / 64);
        lemma_base64_digit_injective(x2 % 64, y2 % 64);
        lemma_group_bytes(a[0], a[1], a[2], b[0], b[1], b[2]);
        let ra = base64_no_pad(a.skip(3));
        let rb = base64_no_pad(b.skip(3));
        assert(ra =~= ea.subrange(4, ea.len() as int));
        assert(rb =~= eb.subrange(4, eb.len() as int));
        lemma_base64_injective(a.skip(3), b.skip(3));
        assert(a =~= b) by {
            assert forall|i: int| 0 <= i < a.len() implies a[i] == b[i] by {
                if i >= 3 {
                    assert(a[i] == a.skip(3)[i - 3]);
                    assert(b[i] == b.skip(3)[i - 3]);
                }
            }
        }
    }
}

/// The PHC strings of two raw hashes under the same salt and costs are
/// equal only when the raw hashes are.
proof fn lemma_phc_string_injective(salt: Seq<u8>, m: u32, t: u32, l: u32, h1: Seq<u8>, h2: Seq<u8>)
    requires
        argon2id_phc_string(salt, m, t, l, h1) == argon2id_phc_string(salt, m, t, l, h2),
    ensures
        h1 == h2,
{
    let head = "$argon2id$v=19$m="@ + decimal(m as nat) + ",t="@ + decimal(t as nat) + ",p="@
        + decimal(l as nat) + "$"@ + base64_no_pad(salt) + "$"@;
    let s1 = argon2id_phc_string(salt, m, t, l, h1);
    let s2 = argon2id_phc_string(salt, m, t, l, h2);
    assert(s1 == head + base64_no_pad(h1));
    assert(s2 == head + base64_no_pad(h2));
    assert(base64_no_pad(h1) =~= s1.subrange(head.len() as int, s1.len() as int));
    assert(base64_no_pad(h2) =~= s2.subrange(head.len() as int, s2.len() as int));
    lemma_base64_injective(h1, h2);
}

/// A stored password made from password `p` under `salt` accepts a candidate
/// `q` exactly when Argon2id, run over all the bytes of `q`, gives the raw
/// hash it gives over all the bytes of `p` (with the same salt and costs).
/// So a candidate that differs from `p` anywhere is refused unless the two
/// full passwords collide under Argon2id.
pub proof fn law_password_accepted_exactly_on_equal_hash(salt: Seq<char>, p: Seq<char>, q: Seq<char>)
    requires
        encode_utf8(salt).len() == STORED_SALT_LEN,
    ensures
        spec_password_matches(encode_utf8(spec_stored_password(p, salt)), encode_utf8(q)) <==> argon2id_raw_hash(
            encode_utf8(q),
            encode_utf8(salt),
            HASH_MEM_COST,
            HASH_TIME_COST,
            HASH_LANES,
            HASH_LENGTH,
        ) == argon2id_raw_hash(
            encode_utf8(p),
            encode_utf8(salt),
            HASH_MEM_COST,
            HASH_TIME_COST,
            HASH_LANES,
            HASH_LENGTH,
        ),
{
    let es = encode_utf8(salt);
    let hp = spec_password_hash(encode_utf8(p), es);
    let hq = spec_password_hash(encode_utf8(q), es);
    let rp = argon2id_raw_hash(encode_utf8(p), es, HASH_MEM_COST, HASH_TIME_COST, HASH_LANES, HASH_LENGTH);
    let rq = argon2id_raw_hash(encode_utf8(q), es, HASH_MEM_COST, HASH_TIME_COST, HASH_LANES, HASH_LENGTH);
    let stored = spec_stored_password(p, salt);
    lemma_encode_utf8_concat(salt, hp);
    let bytes = encode_utf8(stored);
    assert(bytes.subrange(0, STORED_SALT_LEN as int) =~= es);
    assert(bytes.subrange(STORED_SALT_LEN as int, bytes.len() as int) =~= encode_utf8(hp));
    if spec_password_matches(bytes, encode_utf8(q)) {
        assert(encode_utf8(hq) == encode_utf8(hp));
        encode_utf8_decode_utf8(hq);
        encode_utf8_decode_utf8(hp);
        assert(hq == hp);
        assert(hp == argon2id_phc_string(es, HASH_MEM_COST, HASH_TIME_COST, HASH_LANES, rp));
        assert(hq == argon2id_phc_string(es, HASH_MEM_COST, HASH_TIME_COST, HASH_LANES, rq));
        lemma_phc_string_injective(es, HASH_MEM_COST, HASH_TIME_COST, HASH_LANES, rq, rp);
    }
}

/// User pages are open exactly to groups from `1` up: group `0` is refused,
/// group `1` admitted, and admission carries over to every higher group.
pub proof fn law_user_access_threshold(g1: u8, g2: u8)
    requires
        g1 <= g2,
    ensures
        !spec_user_or_higher(0),
        spec_user_or_higher(1),
        spec_user_or_higher(g1) ==> spec_user_or_higher(g2),
{
}

/// Parent pages are open exactly to groups from `2` up: group `1` is
/// refused, group `2` admitted, and admission carries over to every higher
/// group.
pub proof fn law_parent_access_threshold(g1: u8, g2: u8)
    requires
        g1 <= g2,
    ensures
        !spec_parent_or_higher(1),
        spec_parent_or_higher(2),
        spec_parent_or_higher(g1) ==> spec_parent_or_higher(g2),
{
}

/// A request that carries an auth cookie has its token handed on unchanged,
/// whatever the token; only a request without the cookie is refused.
pub proof fn law_present_cookie_passed_on(token: String)
    ensures
        spec_require_auth_token(Some(token)) == Ok::<String, Error>(token),
        spec_require_auth_token(None) is Err,
{
}

/// A username given to login or sign-up is handed on unchanged, whatever it
/// is; only a request without a username is refused.
pub proof fn law_given_username_passed_on(username: String)
    ensures
        spec_login_username(Some(username)) == Ok::<String, Error>(username),
        spec_sign_up_username(Some(username)) == Ok::<String, Error>(username),
        spec_login_username(None) is Err,
        spec_sign_up_username(None) is Err,
{
}

/// Login refuses an unknown user and a missing password whatever else is
/// given, and admits a known user with a password exactly when the password
/// matches the stored one, handing on that user.
pub proof fn law_login_outcomes(user: User, password: String)
    ensures
        spec_check_login(None, Some(password)) is Err,
        spec_check_login(Some(user), None) is Err,
        spec_check_login(Some(user), Some(password)) is Ok <==> spec_password_matches(
            encode_utf8(user.password@),
            encode_utf8(password@),
        ),
        spec_check_login(Some(user), Some(password)) matches Ok(u) ==> u == user,
{
}

/// Refused credentials and tokens are answered "401 Unauthorized", requests
/// that lack a field "400 Bad Request", and everything else "500 Internal
/// Server Error"; storage faults say only "Database error".
pub proof fn law_error_answers(field: String)
    ensures
        spec_status(Error::AuthFailNoAuthTokenCookie) == 401,
        spec_status(Error::AuthFailTokenWrongFormat) == 401,
        spec_status(Error::AuthFailTokenExpired) == 401,
        spec_status(Error::AuthFailUserNotFound) == 401,
        spec_status(Error::AuthFailIncorrectPassword) == 401,
        spec_status(Error::QueryFailNoUsername) == 400,
        spec_status(Error::QueryFailNoPassword) == 400,
        spec_status(Error::AuthFailUserAlreadyExists) == 500,
        spec_status(Error::AuthFailGroupTooLow) == 500,
        spec_status(Error::DBFailFieldNotFound(field)) == 500,
        spec_status(Error::DBFailFieldEmpty(field)) == 500,
        spec_status(Error::DBFailedToCreateUser) == 500,
        spec_status(Error::DBConnectionFail) == 500,
        spec_message(Error::DBFailFieldNotFound(field)) == "Database error"@,
        spec_message(Error::DBFailFieldEmpty(field)) == "Database error"@,
{
}

/// An item read as a user reports the first of `email`, `known_as`,
/// `password` it lacks, by name, and a user it yields carries the item's
/// email text.
pub proof fn law_missing_field_reported(item: Seq<(String, AttrValue)>, r: Result<Option<User>, Error>)
    requires
        read_outcome(item, r),
    ensures
        spec_attr(item, "email"@) is None ==> (r matches Err(Error::DBFailFieldNotFound(f)) && f@ == "email"@),
        (spec_attr(item, "email"@) is Some && spec_attr(item, "known_as"@) is None) ==> (r matches Err(
            Error::DBFailFieldNotFound(f),
        ) && f@ == "known_as"@),
        (spec_attr(item, "email"@) is Some && spec_attr(item, "known_as"@) is Some && spec_attr(
            item,
            "password"@,
        ) is None) ==> (r matches Err(Error::DBFailFieldNotFound(f)) && f@ == "password"@),
        r matches Ok(Some(u)) ==> (spec_attr(item, "email"@) matches Some(e) && attr_text(e)
            == u.email@),
{
}

} // verus!
