//! What is stored for a password. No table and no comparison holds a password itself: what
//! is stored at registration and compared at login is its keyed one-way hash, salted with
//! the email of the account.

use vstd::prelude::*;
use crate::errors::ApiError;
use crate::models::{opt_text, text_answer};

verus! {

/// The text that `jsonwebtoken::crypto::sign` gives for `password` under HMAC-SHA-512 keyed
/// with `salt`, or `None` where it reports an error; for the passwords that
/// [`credential_of`] hashes it reports none.
pub uninterp spec fn password_hash(password: Seq<char>, salt: Seq<char>) -> Option<Seq<char>>;

/// Hashes `password` with `jsonwebtoken::crypto::sign`: the HMAC-SHA-512 of the password
/// under the bytes of `salt` as the key, in URL-safe base64.
///
/// Assumed of the outside crate: the text depends on the password and the salt alone, and
/// signing with an HMAC reports no error.
#[verifier::external_body]
fn hash_password(password: &str, salt: &str) -> (r: Option<String>)
    ensures
        opt_text(r) == password_hash(password@, salt@),
        r is Some,
{
    let key = jsonwebtoken::EncodingKey::from_secret(salt.as_bytes());
    jsonwebtoken::crypto::sign(password, &key, jsonwebtoken::Algorithm::HS512).ok()
}

/// The credential of the account `email` with the password `password`: the hash of the
/// password salted with the email, or `InternalError` where hashing reports an error.
pub open spec fn credential(email: Seq<char>, password: Seq<char>) -> Result<Seq<char>, ApiError> {
    match password_hash(password, email) {
        Some(hash) => Ok(hash),
        None => Err(ApiError::InternalError),
    }
}

/// Derives the credential of the account `email` from the password `password`. There is one
/// for every email and password.
pub fn credential_of(email: &str, password: &str) -> (r: Result<String, ApiError>)
    ensures
        text_answer(r) == credential(email@, password@),
        r is Ok,
{
    match hash_password(password, email) {
        Some(hash) => Ok(hash),
        None => Err(ApiError::InternalError),
    }
}

} // verus!
