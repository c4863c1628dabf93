//! The users of the service: lookup, registration into the store, and the authentication
//! that turns the token header of a request into a live user.

use vstd::prelude::*;
use crate::errors::ApiError;
use crate::models::{User, UserView};
use crate::runtime::{current_time, random_id};
use crate::store::{
    Store, StoreView, contains_email, contains_user_id, distinct_emails, distinct_user_ids,
    position_of_email, position_of_user,
};
use crate::token_utils::{
    KEY, ONE_WEEK, UserToken, decode_jwt_bytes_at, is_issued, token_bytes, token_claims,
    token_user,
};

verus! {

/// The user among `users` that has the id `uid`. Ids are unique.
pub open spec fn user_with_id(users: Seq<UserView>, uid: u128) -> Option<UserView> {
    if contains_user_id(users, uid) {
        Some(users[choose|i: int| 0 <= i < users.len() && (#[trigger] users[i]).user_id == uid])
    } else {
        None
    }
}

/// The user among `users` that has the email `email`. Emails are unique.
pub open spec fn user_with_email(users: Seq<UserView>, email: Seq<char>) -> Option<UserView> {
    if contains_email(users, email) {
        Some(users[choose|i: int| 0 <= i < users.len() && (#[trigger] users[i]).email == email])
    } else {
        None
    }
}

/// Where ids are unique, a user among `users` is the one that its id stands for.
pub proof fn lemma_user_with_id(users: Seq<UserView>, at: int)
    requires
        distinct_user_ids(users),
        0 <= at < users.len(),
    ensures
        user_with_id(users, users[at].user_id) == Some(users[at]),
{
    let uid = users[at].user_id;
    let chosen = choose|i: int| 0 <= i < users.len() && (#[trigger] users[i]).user_id == uid;
    assert(chosen == at);
}

/// Where emails are unique, a user among `users` is the one that its email stands for.
pub proof fn lemma_user_with_email(users: Seq<UserView>, at: int)
    requires
        distinct_emails(users),
        0 <= at < users.len(),
    ensures
        user_with_email(users, users[at].email) == Some(users[at]),
{
    let email = users[at].email;
    let chosen = choose|i: int| 0 <= i < users.len() && (#[trigger] users[i]).email == email;
    assert(chosen == at);
}

/// Finds the user with the id `uid`. That there is none is an ordinary answer.
pub fn find_user_by_uid(uid: u128, store: &Store) -> (r: Option<User>)
    ensures
        match r {
            Some(user) => user_with_id(store@.users, uid) == Some(user@),
            None => user_with_id(store@.users, uid) is None,
        },
{
    let users = store.users();
    match position_of_user(users, uid) {
        Some(at) => {
            proof {
                assert(store@.users[at as int] == users[at as int]@);
                lemma_user_with_id(store@.users, at as int);
            }
            Some(users[at].clone())
        },
        None => None,
    }
}

/// Finds the user with the email `email_str`. That there is none is an ordinary answer.
pub fn find_user_by_email(email_str: &str, store: &Store) -> (r: Option<User>)
    ensures
        match r {
            Some(user) => user_with_email(store@.users, email_str@) == Some(user@),
            None => user_with_email(store@.users, email_str@) is None,
        },
{
    let users = store.users();
    let wanted = email_str.to_owned();
    match position_of_email(users, &wanted) {
        Some(at) => {
            proof {
                assert(store@.users[at as int] == users[at as int]@);
                lemma_user_with_email(store@.users, at as int);
            }
            Some(users[at].clone())
        },
        None => None,
    }
}

/// The row of a user registered with the given fields under the id `user_id` at `created_at`.
pub open spec fn new_user_row(
    user_id: u128,
    first_name: Seq<char>,
    last_name: Seq<char>,
    email: Seq<char>,
    password: Seq<char>,
    created_at: chrono::NaiveDateTime,
) -> UserView {
    UserView { user_id, first_name, last_name, email, password, created_at }
}

/// Stores a new user under a fresh random id, stamped with the current time. `passwd` is the
/// credential to store, as [`crate::credentials::credential_of`] derives it.
///
/// The store refuses the row, with `InternalError` and without any change, if the email is
/// taken or the fresh id happens to be in use. Otherwise the row is added and returned; in
/// a store without users it always is.
pub fn insert_new_user(
    first_n: &str,
    last_n: &str,
    email_str: &str,
    passwd: &str,
    store: &mut Store,
) -> (r: Result<User, ApiError>)
    ensures
        match r {
            Ok(user) => {
                &&& user@ == new_user_row(
                    user.user_id,
                    first_n@,
                    last_n@,
                    email_str@,
                    passwd@,
                    user.created_at,
                )
                &&& old(store)@.admits_user(user@)
                &&& final(store)@ == old(store)@.with_user(user@)
                &&& final(store)@.has_user(user.user_id)
                &&& final(store)@.has_email(email_str@)
            },
            Err(e) => e == ApiError::InternalError && final(store)@ == old(store)@,
        },
        old(store)@.has_email(email_str@) ==> r is Err,
        old(store)@.users.len() == 0 ==> r is Ok,
{
    let (created_at, _) = current_time();
    let new_user = User {
        user_id: random_id(),
        first_name: first_n.to_owned(),
        last_name: last_n.to_owned(),
        email: email_str.to_owned(),
        password: passwd.to_owned(),
        created_at,
    };
    let stored = new_user.clone();
    let ghost before = store@;
    match store.add_user(stored) {
        Ok(()) => {
            assert(store@.users[before.users.len() as int] == new_user@);
            Ok(new_user)
        },
        Err(e) => Err(e),
    }
}

/// A byte that may stand in the text of a header: a visible ASCII character, a space or a
/// tab.
pub open spec fn is_text_byte(b: u8) -> bool {
    b == 9 || 32 <= b < 127
}

/// The header value `bytes` is text.
pub open spec fn is_header_text(bytes: Seq<u8>) -> bool {
    forall|i: int| 0 <= i < bytes.len() ==> is_text_byte(#[trigger] bytes[i])
}

/// The bytes of an optional header value.
pub open spec fn header_bytes(header: Option<&[u8]>) -> Option<Seq<u8>> {
    match header {
        Some(bytes) => Some(bytes@),
        None => None,
    }
}

/// Whether the header value `bytes` is text.
pub fn header_is_text(bytes: &[u8]) -> (b: bool)
    ensures
        b == is_header_text(bytes@),
{
    let mut i: usize = 0;
    while i < bytes.len()
        invariant
            i <= bytes.len(),
            forall|j: int| 0 <= j < i ==> is_text_byte(#[trigger] bytes@[j]),
        decreases bytes.len() - i,
    {
        let b = bytes[i];
        if !(b == 9 || (32 <= b && b < 127)) {
            return false;
        }
        i += 1;
    }
    true
}

/// Whom the token header `header` names at the instant `now`, before the store is asked.
///
/// Without a header, with a header that is not text, or with a token that is not accepted at
/// `now`, nobody is named and the request is `Unauthorized`.
pub open spec fn named_user(header: Option<Seq<u8>>, now: i64) -> Result<u128, ApiError> {
    match header {
        None => Err(ApiError::Unauthorized),
        Some(bytes) => if !is_header_text(bytes) {
            Err(ApiError::Unauthorized)
        } else {
            match token_user(bytes, now) {
                Ok(uid) => Ok(uid),
                Err(_) => Err(ApiError::Unauthorized),
            }
        },
    }
}

/// Whom the named user `named` resolves to in the store: a user that is not stored is
/// `NotFound`, and a request that names nobody fails as it did.
pub open spec fn resolution(named: Result<u128, ApiError>, store: StoreView) -> Result<
    u128,
    ApiError,
> {
    match named {
        Err(e) => Err(e),
        Ok(uid) => if store.has_user(uid) {
            Ok(uid)
        } else {
            Err(ApiError::NotFound)
        },
    }
}

/// Whom a request with the token header `header` is made by, at the instant `now`.
///
/// Without a header, with a header that is not text, or with a token that is not accepted
/// at `now`, the request is `Unauthorized`. With an accepted token whose user is not stored
/// it is `NotFound`. Otherwise it is made by the user of the token.
pub open spec fn authentication(header: Option<Seq<u8>>, now: i64, store: StoreView) -> Result<
    u128,
    ApiError,
> {
    resolution(named_user(header, now), store)
}

/// Reads the token header of a request and gives the user that it names at the instant
/// `now`. The store is not consulted: this tells which rows the request is about.
pub fn named_user_at(header: Option<&[u8]>, now: i64) -> (r: Result<u128, ApiError>)
    ensures
        r == named_user(header_bytes(header), now),
{
    let bytes = match header {
        Some(bytes) => bytes,
        None => {
            return Err(ApiError::Unauthorized);
        },
    };
    if !header_is_text(bytes) {
        return Err(ApiError::Unauthorized);
    }
    match decode_jwt_bytes_at(bytes, now) {
        Ok(uid) => Ok(uid),
        Err(_) => Err(ApiError::Unauthorized),
    }
}

/// Reads the token header of a request and gives the user that it names now.
pub fn named_user_now(header: Option<&[u8]>) -> (r: Result<u128, ApiError>)
    ensures
        exists|now: i64| r == named_user(header_bytes(header), now),
        r matches Err(e) ==> e == ApiError::Unauthorized,
        header is None ==> r is Err,
{
    let (_, now) = current_time();
    let r = named_user_at(header, now);
    assert(r == named_user(header_bytes(header), now));
    r
}

/// Resolves the named user `named` in the store. The id that is returned is the one of the
/// stored row.
pub fn resolve_user(named: Result<u128, ApiError>, store: &Store) -> (r: Result<u128, ApiError>)
    ensures
        r == resolution(named, store@),
{
    let uid = match named {
        Ok(uid) => uid,
        Err(e) => {
            return Err(e);
        },
    };
    match find_user_by_uid(uid, store) {
        Some(found) => {
            proof {
                let users = store@.users;
                let at = choose|i: int|
                    0 <= i < users.len() && (#[trigger] users[i]).user_id == uid;
                assert(found@ == users[at]);
            }
            Ok(found.user_id)
        },
        None => Err(ApiError::NotFound),
    }
}

/// Authenticates a request at the instant `now` from its token header.
pub fn authenticate_at(header: Option<&[u8]>, now: i64, store: &Store) -> (r: Result<
    u128,
    ApiError,
>)
    ensures
        r == authentication(header_bytes(header), now, store@),
{
    resolve_user(named_user_at(header, now), store)
}

/// Authenticates a request from its token header, at the current instant.
///
/// Every protected operation starts here: what is returned is a stored user.
pub fn authenticate_request(header: Option<&[u8]>, store: &Store) -> (r: Result<u128, ApiError>)
    ensures
        exists|now: i64| r == authentication(header_bytes(header), now, store@),
        header is None ==> r == Err::<u128, ApiError>(ApiError::Unauthorized),
        r matches Ok(uid) ==> store@.has_user(uid),
{
    let (_, now) = current_time();
    let r = authenticate_at(header, now, store);
    assert(r == authentication(header_bytes(header), now, store@));
    r
}

/// The three answers of authentication: no header is `Unauthorized`; an accepted token of a
/// user that is not stored is `NotFound`; an accepted token of a stored user gives that
/// user.
pub proof fn lemma_authentication_cases(
    bytes: Seq<u8>,
    claims: UserToken,
    now: i64,
    store: StoreView,
)
    requires
        is_header_text(bytes),
        token_claims(bytes, KEY@) == Some(claims),
        now <= claims.exp,
    ensures
        authentication(None, now, store) == Err::<u128, ApiError>(ApiError::Unauthorized),
        !store.has_user(claims.user_id) ==> authentication(Some(bytes), now, store) == Err::<
            u128,
            ApiError,
        >(ApiError::NotFound),
        store.has_user(claims.user_id) ==> authentication(Some(bytes), now, store) == Ok::<
            u128,
            ApiError,
        >(claims.user_id),
{
}

/// A token that was issued to a stored user authenticates every request that carries it in
/// its header, from the instant of its issue up to the instant of its expiry, and none after.
pub proof fn lemma_issued_token_authenticates(
    token: Seq<char>,
    uid: u128,
    now: i64,
    at: i64,
    store: StoreView,
)
    requires
        is_issued(token, uid, now),
        store.has_user(uid),
    ensures
        authentication(Some(token_bytes(token)), now, store) == Ok::<u128, ApiError>(uid),
        at <= now + ONE_WEEK ==> authentication(Some(token_bytes(token)), at, store) == Ok::<
            u128,
            ApiError,
        >(uid),
        at > now + ONE_WEEK ==> authentication(Some(token_bytes(token)), at, store) == Err::<
            u128,
            ApiError,
        >(ApiError::Unauthorized),
{
}

} // verus!
