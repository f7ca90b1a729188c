//! Credential hasher: turns a plaintext password into the digest that the
//! account store keeps.
//!
//! The digest is the SHA-512 hash of the password's UTF-8 bytes followed by the
//! UTF-8 bytes of one salt that every account shares. The salt comes from
//! configuration; where none is configured a fixed fallback is used.

use crate::model::option_view;
use sha2::Digest;
use sha2::Sha512;
use vstd::prelude::*;
use vstd::string::StrSliceExecFns;
use vstd::utf8::encode_utf8;

verus! {

/// Number of bytes in every digest.
pub const DIGEST_LENGTH: usize = 64;

/// The SHA-512 hash of `message`.
pub uninterp spec fn sha512(message: Seq<u8>) -> Seq<u8>;

/// The salt used where none is configured.
pub open spec fn fallback_salt() -> Seq<char> {
    "<<dev>>"@
}

/// The salt in force under a configuration that may leave it unset.
pub open spec fn effective_salt(configured: Option<Seq<char>>) -> Seq<char> {
    match configured {
        Some(salt) => salt,
        None => fallback_salt(),
    }
}

/// The bytes that are hashed for `password` under `salt`.
pub open spec fn salted_message(password: Seq<char>, salt: Seq<char>) -> Seq<u8> {
    encode_utf8(password) + encode_utf8(salt)
}

/// The digest of `password` under `salt`.
pub open spec fn password_digest(password: Seq<char>, salt: Seq<char>) -> Seq<u8> {
    sha512(salted_message(password, salt))
}

/// Calls `sha2::Sha512::digest` (the one-shot form of the `digest::Digest`
/// trait) on `message` and copies the output into a vector.
///
/// Trusted: the result is the SHA-512 hash of the message, and it is 64 bytes
/// long, the output size that `sha2` fixes for `Sha512`.
#[verifier::external_body]
fn sha512_of(message: &[u8]) -> (digest: Vec<u8>)
    ensures
        digest@ == sha512(message@),
        digest@.len() == DIGEST_LENGTH,
{
    Sha512::digest(message).to_vec()
}

/// The salt to hash under, given what configuration holds.
pub fn resolve_salt(configured: Option<String>) -> (salt: String)
    ensures
        salt@ == effective_salt(option_view(configured)),
{
    match configured {
        Some(salt) => salt,
        None => "<<dev>>".to_owned(),
    }
}

/// Hashes `password` under `salt`.
pub fn hash_password(password: &str, salt: &str) -> (digest: Vec<u8>)
    ensures
        digest@ == password_digest(password@, salt@),
        digest@.len() == DIGEST_LENGTH,
{
    let mut message = password.as_bytes_vec();
    let mut salt_bytes = salt.as_bytes_vec();
    message.append(&mut salt_bytes);
    sha512_of(message.as_slice())
}

/// Hashing is a function of the password and the salt alone: two calls on the
/// same password under the same salt yield the same digest.
pub proof fn lemma_hash_deterministic(
    first_password: Seq<char>,
    second_password: Seq<char>,
    first_salt: Seq<char>,
    second_salt: Seq<char>,
)
    requires
        first_password == second_password,
        first_salt == second_salt,
    ensures
        password_digest(first_password, first_salt) == password_digest(
            second_password,
            second_salt,
        ),
{
}

} // verus!
