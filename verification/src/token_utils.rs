//! Signed, time-bound identity tokens.
//!
//! A token carries the id of a user, the instant of its issue and the instant of its expiry,
//! one week later. Signing and signature checking are done by `jsonwebtoken`; whether a token
//! has expired is decided here, against an instant that the caller can name.

use vstd::prelude::*;
use crate::errors::{ApiError, AuthError};
use crate::models::{opt_text, text_answer};
use crate::runtime::current_time;
use crate::user_actions::is_header_text;

verus! {

/// Lifetime of a token, in seconds.
pub const ONE_WEEK: i64 = 604800;

/// The secret shared by signing and checking.
pub const KEY: [u8; 6] = [115, 101, 99, 114, 101, 116];

/// What a token carries.
#[derive(Clone, Copy, Debug, PartialEq, Eq, Structural)]
pub struct UserToken {
    /// Instant of issue, in seconds since the Unix epoch.
    pub iat: i64,
    /// Instant of expiry, in seconds since the Unix epoch.
    pub exp: i64,
    /// The user that the token speaks for.
    pub user_id: u128,
}

/// The text that `jsonwebtoken::encode` gives for `claims` under the HMAC secret `key`, or
/// `None` where it reports an error; for the claims that [`generate_jwt_at`] signs it
/// reports none.
pub uninterp spec fn signed_token(claims: UserToken, key: Seq<u8>) -> Option<Seq<char>>;

/// The claims that `jsonwebtoken::decode` finds in the token made of the bytes `token` under
/// the HMAC secret `key`, expiry left aside, or `None` where the bytes are no text, the
/// signature does not match or the payload does not parse.
pub uninterp spec fn token_claims(token: Seq<u8>, key: Seq<u8>) -> Option<UserToken>;

/// The bytes of the text `token`.
pub open spec fn token_bytes(token: Seq<char>) -> Seq<u8> {
    vstd::utf8::encode_utf8(token)
}

/// Signs `claims` with `jsonwebtoken::encode`, under the default header (HS256) and the secret
/// `key`. The payload is the JSON object of the three claims, the user id in its hyphenated
/// form.
///
/// Assumed of the outside crate: the text depends on the claims and the key alone; with an
/// HMAC secret and this payload it reports no error; the text is made of three parts in
/// URL-safe base64 with dots between them, so it can stand in a header; and what it signed
/// it also accepts, giving back the same claims.
#[verifier::external_body]
fn sign_claims(claims: &UserToken, key: &[u8]) -> (r: Option<String>)
    ensures
        opt_text(r) == signed_token(*claims, key@),
        r is Some,
        r matches Some(token) ==> is_header_text(token_bytes(token@)),
        r matches Some(token) ==> token_claims(token_bytes(token@), key@) == Some(*claims),
{
    let mut payload = serde_json::Map::new();
    payload.insert("iat".to_string(), serde_json::Value::from(claims.iat));
    payload.insert("exp".to_string(), serde_json::Value::from(claims.exp));
    let user_id = uuid::Uuid::from_u128(claims.user_id).to_string();
    payload.insert("user_id".to_string(), serde_json::Value::from(user_id));
    let key = jsonwebtoken::EncodingKey::from_secret(key);
    jsonwebtoken::encode(&jsonwebtoken::Header::default(), &payload, &key).ok()
}

/// Checks the signature of the token made of the bytes `token` with `jsonwebtoken::decode`,
/// under HS256 and the secret `key`, and reads the three claims from its payload. The
/// crate's own expiry check is switched off: expiry is decided by [`check_claims`].
///
/// Assumed of the outside crate: the outcome depends on the token and the key alone.
#[verifier::external_body]
fn read_claims(token: &[u8], key: &[u8]) -> (r: Option<UserToken>)
    ensures
        r == token_claims(token@, key@),
{
    let text = std::str::from_utf8(token).ok()?;
    let rules = jsonwebtoken::Validation { validate_exp: false, ..Default::default() };
    let key = jsonwebtoken::DecodingKey::from_secret(key);
    let payload = jsonwebtoken::decode::<serde_json::Value>(text, &key, &rules).ok()?.claims;
    let iat = payload.get("iat")?.as_i64()?;
    let exp = payload.get("exp")?.as_i64()?;
    let user_id = uuid::Uuid::parse_str(payload.get("user_id")?.as_str()?).ok()?.as_u128();
    Some(UserToken { iat, exp, user_id })
}

/// The claims of a token issued to `uid` at the instant `now`.
pub open spec fn issued_claims(uid: u128, now: i64) -> UserToken {
    UserToken { iat: now, exp: (now + ONE_WEEK) as i64, user_id: uid }
}

/// A token can be issued at `now`: its expiry is an instant that the clock can show.
pub open spec fn can_issue_at(now: i64) -> bool {
    now + ONE_WEEK <= i64::MAX
}

/// `token` is the token issued to `uid` at the instant `now`: it can stand in a header, and
/// it is accepted as what it was issued as.
pub open spec fn is_issued(token: Seq<char>, uid: u128, now: i64) -> bool {
    &&& can_issue_at(now)
    &&& signed_token(issued_claims(uid, now), KEY@) == Some(token)
    &&& is_header_text(token_bytes(token))
    &&& token_claims(token_bytes(token), KEY@) == Some(issued_claims(uid, now))
}

/// Whom `decoded` speaks for at the instant `now`: the user of the claims, unless there are
/// no claims or the instant lies after their expiry.
pub open spec fn claims_user(decoded: Option<UserToken>, now: i64) -> Result<u128, AuthError> {
    match decoded {
        Some(claims) => if now <= claims.exp {
            Ok(claims.user_id)
        } else {
            Err(AuthError::Invalid)
        },
        None => Err(AuthError::Invalid),
    }
}

/// Whom the token made of the bytes `token` speaks for at the instant `now`.
pub open spec fn token_user(token: Seq<u8>, now: i64) -> Result<u128, AuthError> {
    claims_user(token_claims(token, KEY@), now)
}

/// Builds the claims of a token issued to `uid` at `now`, or `None` if the expiry would lie
/// beyond what the clock can show.
pub fn claims_issued_at(uid: u128, now: i64) -> (r: Option<UserToken>)
    ensures
        r == (if can_issue_at(now) {
            Some(issued_claims(uid, now))
        } else {
            None
        }),
{
    match now.checked_add(ONE_WEEK) {
        Some(exp) => Some(UserToken { iat: now, exp, user_id: uid }),
        None => None,
    }
}

/// The token that is issued to `uid` at `now`, or `InternalError` where the expiry cannot be
/// shown or signing reports an error, which it does for no token that is asked for.
pub open spec fn issuing(uid: u128, now: i64) -> Result<Seq<char>, ApiError> {
    if !can_issue_at(now) {
        Err(ApiError::InternalError)
    } else {
        match signed_token(issued_claims(uid, now), KEY@) {
            Some(token) => Ok(token),
            None => Err(ApiError::InternalError),
        }
    }
}

/// Issues a token to `uid` at the instant `now`.
///
/// Fails, with `InternalError`, exactly if the expiry is an instant that the clock cannot
/// show.
pub fn generate_jwt_at(uid: u128, now: i64) -> (r: Result<String, ApiError>)
    ensures
        text_answer(r) == issuing(uid, now),
        r is Ok <==> can_issue_at(now),
        r matches Ok(token) ==> is_issued(token@, uid, now),
{
    let claims = match claims_issued_at(uid, now) {
        Some(claims) => claims,
        None => {
            return Err(ApiError::InternalError);
        },
    };
    match sign_claims(&claims, KEY.as_slice()) {
        Some(token) => Ok(token),
        None => Err(ApiError::InternalError),
    }
}

/// Issues a token to `uid` at the current instant: it expires one week from now. A token is
/// always issued.
pub fn generate_jwt(uid: u128) -> (r: Result<String, ApiError>)
    ensures
        r matches Ok(token) && exists|now: i64| is_issued(token@, uid, now),
{
    let (_, now) = current_time();
    let r = generate_jwt_at(uid, now);
    assert(r matches Ok(token) && is_issued(token@, uid, now));
    r
}

/// Decides whom the claims `decoded` speak for at the instant `now`.
pub fn check_claims(decoded: Option<UserToken>, now: i64) -> (r: Result<u128, AuthError>)
    ensures
        r == claims_user(decoded, now),
{
    match decoded {
        Some(claims) => if now <= claims.exp {
            Ok(claims.user_id)
        } else {
            Err(AuthError::Invalid)
        },
        None => Err(AuthError::Invalid),
    }
}

/// Checks `token` at the instant `now` and gives the user it speaks for.
///
/// Fails with `Invalid` if the signature does not match, the payload does not parse, or `now`
/// lies after the expiry. The store is not consulted.
pub fn decode_jwt_at(token: &str, now: i64) -> (r: Result<u128, AuthError>)
    ensures
        r == token_user(token_bytes(token@), now),
{
    decode_jwt_bytes_at(token.as_bytes(), now)
}

/// Checks the token made of the bytes `token` at the instant `now`, as [`decode_jwt_at`]
/// does for a text.
pub fn decode_jwt_bytes_at(token: &[u8], now: i64) -> (r: Result<u128, AuthError>)
    ensures
        r == token_user(token@, now),
{
    check_claims(read_claims(token, KEY.as_slice()), now)
}

/// Checks `token` at the current instant and gives the user it speaks for.
pub fn decode_jwt_and_get_user_id(token: &str) -> (r: Result<u128, AuthError>)
    ensures
        exists|now: i64| r == token_user(token_bytes(token@), now),
        token_claims(token_bytes(token@), KEY@) is None ==> r == Err::<u128, AuthError>(
            AuthError::Invalid,
        ),
        r matches Ok(uid) ==> (token_claims(token_bytes(token@), KEY@) matches Some(claims)
            && claims.user_id == uid),
{
    let (_, now) = current_time();
    let r = decode_jwt_at(token, now);
    assert(r == token_user(token_bytes(token@), now));
    r
}

/// A token issued to `uid` at `now` speaks for `uid` at every instant up to its expiry, the
/// instant of issue among them, and for nobody after it.
pub proof fn lemma_issued_token_lifetime(token: Seq<char>, uid: u128, now: i64, at: i64)
    requires
        is_issued(token, uid, now),
    ensures
        token_user(token_bytes(token), now) == Ok::<u128, AuthError>(uid),
        at <= now + ONE_WEEK ==> token_user(token_bytes(token), at) == Ok::<u128, AuthError>(uid),
        at > now + ONE_WEEK ==> token_user(token_bytes(token), at) == Err::<u128, AuthError>(
            AuthError::Invalid,
        ),
{
}

} // verus!
