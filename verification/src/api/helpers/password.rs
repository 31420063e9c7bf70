use vstd::prelude::*;
use vstd::utf8::{encode_utf8, is_char_boundary};
use crate::error::Error;
use vstd::string::StringExecFns;
use argon2::{Config, ThreadMode, Variant, Version};
use argon2::Error as HashError;

verus! {

#[verifier::external_type_specification]
#[verifier::external_body]
pub struct ExHashError(HashError);

/// The salt used when a password is hashed without a salt of its own.
pub const SALT: &'static str = "jwt-auth-salt-16";

/// Memory cost of the password hash, in KiB.
pub const HASH_MEM_COST: u32 = 4096;
/// Number of passes of the password hash.
pub const HASH_TIME_COST: u32 = 2;
/// Degree of parallelism of the password hash.
pub const HASH_LANES: u32 = 8;
/// Length of the raw password hash, in bytes.
pub const HASH_LENGTH: u32 = 32;

/// The raw Argon2id hash (version 0x13, no secret, no associated data)
/// that the `rust-argon2` crate computes for password bytes `pwd` and salt
/// bytes `salt` with the given costs and hash length.
pub uninterp spec fn argon2id_raw_hash(
    pwd: Seq<u8>,
    salt: Seq<u8>,
    mem_cost: u32,
    time_cost: u32,
    lanes: u32,
    hash_length: u32,
) -> Seq<u8>;

/// The decimal digits of `n`, without leading zeros.
pub open spec fn decimal(n: nat) -> Seq<char>
    decreases n,
{
    if n < 10 {
        seq![('0' as int + n) as char]
    } else {
        decimal(n / 10) + seq![('0' as int + n % 10) as char]
    }
}

/// The character of the standard Base64 alphabet for the six-bit value `v`.
pub open spec fn base64_digit(v: int) -> char {
    if v < 26 {
        ('A' as int + v) as char
    } else if v < 52 {
        ('a' as int + v - 26) as char
    } else if v < 62 {
        ('0' as int + v - 52) as char
    } else if v == 62 {
        '+'
    } else {
        '/'
    }
}

/// Standard Base64 of `b`, without `=` padding.
pub open spec fn base64_no_pad(b: Seq<u8>) -> Seq<char>
    decreases b.len(),
{
    if b.len() == 0 {
        seq![]
    } else {
        let b0 = b[0] as int;
        if b.len() == 1 {
            seq![base64_digit(b0 / 4), base64_digit((b0 % 4) * 16)]
        } else {
            let b1 = b[1] as int;
            if b.len() == 2 {
                seq![
                    base64_digit(b0 / 4),
                    base64_digit((b0 % 4) * 16 + b1 / 16),
                    base64_digit((b1 % 16) * 4),
                ]
            } else {
                let b2 = b[2] as int;
                seq![
                    base64_digit(b0 / 4),
                    base64_digit((b0 % 4) * 16 + b1 / 16),
                    base64_digit((b1 % 16) * 4 + b2 / 64),
                    base64_digit(b2 % 64),
                ] + base64_no_pad(b.skip(3))
            }
        }
    }
}

/// The PHC string `$argon2id$v=19$m=<mem_cost>,t=<time_cost>,p=<lanes>$<salt>$<hash>`,
/// with salt and hash in Base64 without padding.
pub open spec fn argon2id_phc_string(
    salt: Seq<u8>,
    mem_cost: u32,
    time_cost: u32,
    lanes: u32,
    hash: Seq<u8>,
) -> Seq<char> {
    "$argon2id$v=19$m="@ + decimal(mem_cost as nat) + ",t="@ + decimal(time_cost as nat) + ",p="@
        + decimal(lanes as nat) + "$"@ + base64_no_pad(salt) + "$"@ + base64_no_pad(hash)
}

/// Calls `argon2::hash_encoded` (crate `rust-argon2`) with an Argon2id,
/// version 0x13 configuration without secret or associated data. The
/// contract claims that, on the parameters its `requires` admits, the call
/// succeeds (the crate refuses only parameters outside these bounds, in
/// `Context::new`) and returns the PHC string that `encoding::encode_string`
/// formats from the costs, the salt and the raw hash; the raw hash is named by
/// `argon2id_raw_hash`, depends on the arguments alone and has `hash_length`
/// bytes (`core::finalize`).
#[verifier::external_body]
fn argon2id_encode(
    pwd: &[u8],
    salt: &[u8],
    mem_cost: u32,
    time_cost: u32,
    lanes: u32,
    hash_length: u32,
) -> (r: Result<String, HashError>)
    requires
        pwd@.len() <= 0xFFFF_FFFF,
        8 <= salt@.len() <= 0xFFFF_FFFF,
        1 <= lanes <= 0x00FF_FFFF,
        8 * lanes <= mem_cost <= 0x20_0000,
        1 <= time_cost,
        4 <= hash_length,
    ensures
        r is Ok,
        r matches Ok(s) ==> s@ == argon2id_phc_string(salt@, mem_cost, time_cost, lanes, argon2id_raw_hash(pwd@, salt@, mem_cost, time_cost, lanes, hash_length)),
        r matches Ok(s) ==> argon2id_raw_hash(pwd@, salt@, mem_cost, time_cost, lanes, hash_length).len() == hash_length,
{
    let config = Config {
        variant: Variant::Argon2id,
        version: Version::Version13,
        mem_cost,
        time_cost,
        lanes,
        thread_mode: ThreadMode::Parallel,
        secret: &[],
        ad: &[],
        hash_length,
    };
    argon2::hash_encoded(pwd, salt, &config)
}

/// The raw hash of password bytes `pwd` under salt bytes `salt`, with the
/// service's hash parameters.
pub open spec fn spec_raw_password_hash(pwd: Seq<u8>, salt: Seq<u8>) -> Seq<u8> {
    argon2id_raw_hash(pwd, salt, HASH_MEM_COST, HASH_TIME_COST, HASH_LANES, HASH_LENGTH)
}

/// The encoded hash of password bytes `pwd` under salt bytes `salt`, with the
/// service's hash parameters.
pub open spec fn spec_password_hash(pwd: Seq<u8>, salt: Seq<u8>) -> Seq<char> {
    argon2id_phc_string(
        salt,
        HASH_MEM_COST,
        HASH_TIME_COST,
        HASH_LANES,
        spec_raw_password_hash(pwd, salt),
    )
}

/// Whether password bytes and salt bytes are within what the hash accepts.
pub open spec fn hashable(pwd: Seq<u8>, salt: Seq<u8>) -> bool {
    &&& pwd.len() <= 0xFFFF_FFFF
    &&& 8 <= salt.len() <= 0xFFFF_FFFF
}

/// Hashes `password` under `salt`; the result is the encoded hash string.
pub fn hash_with_salt(password: &str, salt: &str) -> (hash: String)
    requires
        hashable(encode_utf8(password@), encode_utf8(salt@)),
    ensures
        hash@ == spec_password_hash(encode_utf8(password@), encode_utf8(salt@)),
        spec_raw_password_hash(encode_utf8(password@), encode_utf8(salt@)).len() == HASH_LENGTH,
        hash@ == argon2id_phc_string(
            encode_utf8(salt@),
            HASH_MEM_COST,
            HASH_TIME_COST,
            HASH_LANES,
            argon2id_raw_hash(encode_utf8(password@), encode_utf8(salt@), HASH_MEM_COST, HASH_TIME_COST, HASH_LANES, HASH_LENGTH),
        ),
{
    let r = argon2id_encode(
        password.as_bytes(),
        salt.as_bytes(),
        HASH_MEM_COST,
        HASH_TIME_COST,
        HASH_LANES,
        HASH_LENGTH,
    );
    r.unwrap()
}

/// The bytes of the service's default salt.
pub open spec fn salt_bytes() -> Seq<u8> {
    encode_utf8(SALT@)
}

/// The default salt is ASCII and takes exactly `STORED_SALT_LEN` bytes.
pub proof fn lemma_salt_len()
    ensures
        salt_bytes().len() == STORED_SALT_LEN,
{
    reveal_strlit("jwt-auth-salt-16");
    assert(SALT@.len() == 16);
    assert(vstd::utf8::is_ascii_chars(SALT@));
    vstd::utf8::is_ascii_chars_encode_utf8(SALT@);
}

/// Hashes `password` under the service's default salt.
pub fn hash_password(password: String) -> (hash: String)
    requires
        encode_utf8(password@).len() <= 0xFFFF_FFFF,
    ensures
        hash@ == spec_password_hash(encode_utf8(password@), salt_bytes()),
        spec_raw_password_hash(encode_utf8(password@), salt_bytes()).len() == HASH_LENGTH,
{
    proof {
        lemma_salt_len();
    }
    hash_with_salt(password.as_str(), SALT)
}

/// The stored form of `password` under `salt`: the salt followed by the
/// encoded hash of the password under that salt.
pub open spec fn spec_stored_password(password: Seq<char>, salt: Seq<char>) -> Seq<char> {
    salt + spec_password_hash(encode_utf8(password), encode_utf8(salt))
}

/// The stored form of `password` under `salt`, as the user table keeps it.
pub fn stored_password(password: &str, salt: &str) -> (stored: String)
    requires
        hashable(encode_utf8(password@), encode_utf8(salt@)),
    ensures
        stored@ == spec_stored_password(password@, salt@),
        spec_raw_password_hash(encode_utf8(password@), encode_utf8(salt@)).len() == HASH_LENGTH,
{
    let hash = hash_with_salt(password, salt);
    let mut stored = salt.to_owned();
    stored.append(hash.as_str());
    stored
}

/// Length, in bytes, of the salt at the start of a stored password.
pub const STORED_SALT_LEN: usize = 16;

/// Whether the stored password bytes `stored` (a salt of `STORED_SALT_LEN`
/// bytes followed by the encoded hash) accept the password bytes `candidate`:
/// the candidate hashed under the stored salt gives the rest of the stored
/// bytes.
pub open spec fn spec_password_matches(stored: Seq<u8>, candidate: Seq<u8>) -> bool {
    encode_utf8(spec_password_hash(candidate, stored.subrange(0, STORED_SALT_LEN as int)))
        == stored.subrange(STORED_SALT_LEN as int, stored.len() as int)
}

/// Whether a stored password can be split into its salt and its hash: the
/// salt's end falls on a character boundary.
pub open spec fn splittable(stored: Seq<char>) -> bool {
    is_char_boundary(encode_utf8(stored), STORED_SALT_LEN as int)
}

/// Checks `candidate` against the stored password `stored`.
pub fn verify_password(stored: &str, candidate: &str) -> (r: Result<(), Error>)
    requires
        splittable(stored@),
        encode_utf8(candidate@).len() <= 0xFFFF_FFFF,
    ensures
        r is Ok <==> spec_password_matches(encode_utf8(stored@), encode_utf8(candidate@)),
        r matches Err(e) ==> e == Error::AuthFailIncorrectPassword,
{
    broadcast use vstd::utf8::encode_utf8_valid_utf8, vstd::utf8::encode_utf8_decode_utf8;
    proof {
        reveal_with_fuel(is_char_boundary, 2);
    }
    let (salt, rest) = stored.split_at(STORED_SALT_LEN);
    let hashed = hash_with_salt(candidate, salt);
    let rest_owned = rest.to_owned();
    if !(hashed == rest_owned) {
        proof {
            assert(vstd::utf8::decode_utf8(encode_utf8(hashed@)) == hashed@);
            assert(vstd::utf8::decode_utf8(encode_utf8(rest@)) == rest@);
        }
        return Err(Error::AuthFailIncorrectPassword);
    }
    Ok(())
}

} // verus!
