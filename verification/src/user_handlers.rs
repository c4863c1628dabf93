//! Registration and login: what each request is answered with and what it leaves in the
//! store.

use vstd::prelude::*;
use crate::credentials::{credential, credential_of};
use crate::errors::{ApiError, AuthError};
use crate::models::{NewUser, User, UserLogin, UserView, text_answer};
use crate::runtime::{current_time, random_id};
use crate::store::{Store, StoreView, lemma_with_user_wf};
use crate::token_utils::{
    can_issue_at, generate_jwt_at, is_issued, issuing, token_bytes, token_user,
};
use crate::user_actions::{find_user_by_email, find_user_by_uid, new_user_row, user_with_email};

verus! {

/// What a registration with `email` and `password` is answered with, if `user_id` is the id
/// drawn for the new user and `now` the instant of the request.
///
/// An email that is already registered is a `Conflict`. Otherwise the answer is the token
/// issued to the new user, unless the drawn id is in use, the password cannot be hashed or
/// no token can be issued.
pub open spec fn registration(
    store: StoreView,
    email: Seq<char>,
    password: Seq<char>,
    user_id: u128,
    now: i64,
) -> Result<Seq<char>, ApiError> {
    if store.has_email(email) {
        Err(ApiError::Conflict)
    } else if store.has_user(user_id) {
        Err(ApiError::InternalError)
    } else {
        match credential(email, password) {
            Err(e) => Err(e),
            Ok(_) => issuing(user_id, now),
        }
    }
}

/// The row that a successful registration stores: the fields of the request, with the
/// credential in the place of the password.
pub open spec fn registered_row(
    user_id: u128,
    first_name: Seq<char>,
    last_name: Seq<char>,
    email: Seq<char>,
    password: Seq<char>,
    created_at: chrono::NaiveDateTime,
) -> UserView {
    new_user_row(
        user_id,
        first_name,
        last_name,
        email,
        credential(email, password)->Ok_0,
        created_at,
    )
}

/// What a login with `email` and `password` is answered with at the instant `now`.
///
/// An unknown email and a password whose credential is not the stored one are both
/// `Forbidden`. Otherwise the answer is the token issued to the user, unless none can be
/// issued.
pub open spec fn login(store: StoreView, email: Seq<char>, password: Seq<char>, now: i64)
    -> Result<Seq<char>, ApiError> {
    match user_with_email(store.users, email) {
        None => Err(ApiError::Forbidden),
        Some(user) => match credential(email, password) {
            Err(e) => Err(e),
            Ok(presented) => if user.password != presented {
                Err(ApiError::Forbidden)
            } else {
                issuing(user.user_id, now)
            },
        },
    }
}

/// Registers the user of `form` under the id `user_id`, stamped `created_at`, and issues the
/// token at the instant `now`. The user is stored exactly if a token is returned, and what
/// is stored for the password is its credential.
pub fn register_user_with(
    form: &NewUser,
    user_id: u128,
    created_at: chrono::NaiveDateTime,
    now: i64,
    store: &mut Store,
) -> (r: Result<String, ApiError>)
    ensures
        text_answer(r) == registration(old(store)@, form.email@, form.password@, user_id, now),
        r matches Ok(token) ==> is_issued(token@, user_id, now),
        r is Ok ==> final(store)@ == old(store)@.with_user(
            registered_row(
                user_id,
                form.first_name@,
                form.last_name@,
                form.email@,
                form.password@,
                created_at,
            ),
        ),
        r is Ok ==> final(store)@.has_email(form.email@) && final(store)@.has_user(user_id),
        r is Err ==> final(store)@ == old(store)@,
        r is Ok <==> !old(store)@.has_email(form.email@) && !old(store)@.has_user(user_id)
            && can_issue_at(now),
{
    if find_user_by_email(form.email.as_str(), store).is_some() {
        return Err(ApiError::Conflict);
    }
    if find_user_by_uid(user_id, store).is_some() {
        return Err(ApiError::InternalError);
    }
    let password = match credential_of(form.email.as_str(), form.password.as_str()) {
        Ok(password) => password,
        Err(e) => {
            return Err(e);
        },
    };
    let token = match generate_jwt_at(user_id, now) {
        Ok(token) => token,
        Err(e) => {
            return Err(e);
        },
    };
    let new_user = User {
        user_id,
        first_name: form.first_name.clone(),
        last_name: form.last_name.clone(),
        email: form.email.clone(),
        password,
        created_at,
    };
    let ghost row = new_user@;
    let ghost before = store@;
    match store.add_user(new_user) {
        Ok(()) => {
            assert(store@.users[before.users.len() as int] == row);
            Ok(token)
        },
        Err(e) => Err(e),
    }
}

/// Registers the user of `form` under a fresh random id and answers with a token issued now.
///
/// An email that is already registered is a `Conflict`, and nothing else is. A new email is
/// registered unless the drawn id happens to be in use, which is an `InternalError`; the
/// first user of a store is always registered. Any failure leaves the store as it was.
pub fn register_user(form: &NewUser, store: &mut Store) -> (r: Result<String, ApiError>)
    ensures
        old(store)@.has_email(form.email@) <==> r == Err::<String, ApiError>(ApiError::Conflict),
        r matches Err(e) ==> (e == ApiError::Conflict || e == ApiError::InternalError)
            && final(store)@ == old(store)@,
        exists|user_id: u128, now: i64|
            can_issue_at(now) && text_answer(r) == #[trigger] registration(
                old(store)@,
                form.email@,
                form.password@,
                user_id,
                now,
            ),
        old(store)@.users.len() == 0 ==> r is Ok,
        r is Ok ==> final(store)@.has_email(form.email@),
        r matches Ok(token) ==> exists|user_id: u128, created_at: chrono::NaiveDateTime, now: i64|
            {
                &&& #[trigger] is_issued(token@, user_id, now)
                &&& !old(store)@.has_user(user_id)
                &&& final(store)@ == old(store)@.with_user(
                    #[trigger] registered_row(
                        user_id,
                        form.first_name@,
                        form.last_name@,
                        form.email@,
                        form.password@,
                        created_at,
                    ),
                )
            },
{
    let (created_at, now) = current_time();
    let user_id = random_id();
    let ghost before = store@;
    let r = register_user_with(form, user_id, created_at, now, store);
    assert(can_issue_at(now) && text_answer(r) == registration(
        before,
        form.email@,
        form.password@,
        user_id,
        now,
    ));
    r
}

/// The credentials `email` and `password` are those of a stored user.
pub open spec fn credentials_match(store: StoreView, email: Seq<char>, password: Seq<char>)
    -> bool {
    user_with_email(store.users, email) matches Some(user) && credential(email, password) == Ok::<
        Seq<char>,
        ApiError,
    >(user.password)
}

/// Checks the credentials of `form` and answers with a token issued at the instant `now`.
///
/// Credentials that do not match are `Forbidden`. Matching ones are answered with a token,
/// unless its expiry is an instant that the clock cannot show, which is an `InternalError`.
pub fn login_user_at(form: &UserLogin, now: i64, store: &Store) -> (r: Result<String, ApiError>)
    ensures
        text_answer(r) == login(store@, form.email@, form.password@, now),
        r == Err::<String, ApiError>(ApiError::Forbidden) <==> !credentials_match(
            store@,
            form.email@,
            form.password@,
        ),
        r is Ok <==> credentials_match(store@, form.email@, form.password@) && can_issue_at(now),
        r matches Ok(token) ==> (user_with_email(store@.users, form.email@) matches Some(user)
            && is_issued(token@, user.user_id, now)),
{
    let user = match find_user_by_email(form.email.as_str(), store) {
        Some(user) => user,
        None => {
            return Err(ApiError::Forbidden);
        },
    };
    let presented = match credential_of(form.email.as_str(), form.password.as_str()) {
        Ok(presented) => presented,
        Err(e) => {
            return Err(e);
        },
    };
    if user.password != presented {
        return Err(ApiError::Forbidden);
    }
    generate_jwt_at(user.user_id, now)
}

/// Checks the credentials of `form` and answers with a token issued now.
///
/// An unknown email and a password whose credential is not the stored one are both
/// `Forbidden`. Credentials that match are always answered with a token.
pub fn login_user(form: &UserLogin, store: &Store) -> (r: Result<String, ApiError>)
    ensures
        exists|now: i64| text_answer(r) == login(store@, form.email@, form.password@, now),
        r is Ok <==> credentials_match(store@, form.email@, form.password@),
        r is Err ==> r == Err::<String, ApiError>(ApiError::Forbidden),
        r matches Ok(token) ==> (user_with_email(store@.users, form.email@) matches Some(user)
            && exists|now: i64| is_issued(token@, user.user_id, now)),
{
    let (_, now) = current_time();
    let r = login_user_at(form, now, store);
    assert(text_answer(r) == login(store@, form.email@, form.password@, now));
    assert(r matches Ok(token) ==> (user_with_email(store@.users, form.email@) matches Some(user)
        && is_issued(token@, user.user_id, now)));
    r
}

/// A registration with an email that is not registered yet succeeds once the drawn id is
/// free and the token is issued: it is answered with the token, which speaks for the new
/// user; and exactly one row is added, with the id that was drawn, the names and the email
/// of the request, and the credential of its password.
pub proof fn lemma_first_registration_succeeds(
    store: StoreView,
    first_name: Seq<char>,
    last_name: Seq<char>,
    email: Seq<char>,
    password: Seq<char>,
    user_id: u128,
    created_at: chrono::NaiveDateTime,
    now: i64,
    token: Seq<char>,
)
    requires
        store.wf(),
        !store.has_email(email),
        !store.has_user(user_id),
        credential(email, password) is Ok,
        is_issued(token, user_id, now),
    ensures
        registration(store, email, password, user_id, now) == Ok::<Seq<char>, ApiError>(token),
        token_user(token_bytes(token), now) == Ok::<u128, AuthError>(user_id),
        ({
            let row = registered_row(user_id, first_name, last_name, email, password, created_at);
            let after = store.with_user(row);
            &&& after.wf()
            &&& after.users == store.users.push(row)
            &&& after.orders == store.orders
            &&& after.order_items == store.order_items
            &&& row.user_id == user_id
            &&& row.first_name == first_name
            &&& row.last_name == last_name
            &&& row.email == email
            &&& credential(email, password) == Ok::<Seq<char>, ApiError>(row.password)
            &&& after.has_user(user_id)
            &&& after.has_email(email)
        }),
{
    let row = registered_row(user_id, first_name, last_name, email, password, created_at);
    let after = store.with_user(row);
    lemma_with_user_wf(store, row);
    assert(after.users[store.users.len() as int] == row);
}

/// Of two registrations with one email the first can succeed and the second cannot: once
/// the user `row` was registered with the token `token`, the token speaks for that user, and
/// whoever registers with the same email again gets `Conflict`, whatever the password,
/// whatever id is drawn and whenever it happens.
pub proof fn lemma_second_registration_conflicts(
    store: StoreView,
    row: UserView,
    password: Seq<char>,
    token: Seq<char>,
    now: i64,
    second_password: Seq<char>,
    second_id: u128,
    later: i64,
)
    requires
        registration(store, row.email, password, row.user_id, now) == Ok::<Seq<char>, ApiError>(
            token,
        ),
        is_issued(token, row.user_id, now),
    ensures
        !store.has_email(row.email),
        token_user(token_bytes(token), now) == Ok::<u128, AuthError>(row.user_id),
        registration(store.with_user(row), row.email, second_password, second_id, later) == Err::<
            Seq<char>,
            ApiError,
        >(ApiError::Conflict),
{
    let after = store.with_user(row);
    assert(after.users[store.users.len() as int].email == row.email);
}

} // verus!
