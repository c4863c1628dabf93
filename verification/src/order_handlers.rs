//! The protected operations on orders. Each authenticates the request first and works for
//! the user that the token resolved to, and for nobody else.

use vstd::prelude::*;
use crate::errors::ApiError;
use crate::models::{
    NewOrder, Order, OrderDetails, OrderDetailsView, OrderItem, OrderItemView, OrderView,
    details_answer, listing_answer, new_items_view, opt_text, order_answer, order_items_view,
};
use crate::runtime::{current_time, random_id};
use crate::order_actions::{
    are_rows_of, find_all_orders_for_user, find_order_by_id, new_order_items, order_lookup,
    orders_listing,
};
use crate::order_laws::lemma_foreign_order_not_found;
use crate::store::{Store, StoreView};
use crate::user_actions::{authenticate_at, authenticate_request, authentication, header_bytes};

verus! {

/// What a request for the order `oid` is answered with at the instant `now`: the failure of
/// authentication, or what the authenticated user gets for that order.
pub open spec fn order_request(store: StoreView, header: Option<Seq<u8>>, oid: u128, now: i64)
    -> Result<OrderDetailsView, ApiError> {
    match authentication(header, now, store) {
        Err(e) => Err(e),
        Ok(user_id) => order_lookup(store, user_id, oid),
    }
}

/// What a request for all orders is answered with at the instant `now`: the failure of
/// authentication, or the listing of the authenticated user.
pub open spec fn listing_request(store: StoreView, header: Option<Seq<u8>>, now: i64) -> Result<
    Seq<OrderDetailsView>,
    ApiError,
> {
    match authentication(header, now, store) {
        Err(e) => Err(e),
        Ok(user_id) => orders_listing(store, user_id),
    }
}

/// What a request to create an order is answered with at the instant `now`, if `order_id`
/// and `created_at` are the id and the stamp drawn for the order and `rows` the rows built
/// for its lines.
///
/// A request that is not authenticated fails as authentication does. Otherwise the answer
/// is the order of the authenticated user, unless the store does not admit the order with
/// its rows, which is an `InternalError`.
pub open spec fn creation_request(
    store: StoreView,
    header: Option<Seq<u8>>,
    note: Option<Seq<char>>,
    now: i64,
    order_id: u128,
    created_at: chrono::NaiveDateTime,
    rows: Seq<OrderItemView>,
) -> Result<OrderView, ApiError> {
    match authentication(header, now, store) {
        Err(e) => Err(e),
        Ok(user_id) => {
            let order = OrderView { order_id, user_id, note, created_at };
            if store.admits_order_with_items(order, rows) {
                Ok(order)
            } else {
                Err(ApiError::InternalError)
            }
        },
    }
}

/// The store after a request to create an order: with the order and its rows if the request
/// was answered with the order, and as it was if the request failed.
pub open spec fn store_after_creation(
    store: StoreView,
    answer: Result<OrderView, ApiError>,
    rows: Seq<OrderItemView>,
) -> StoreView {
    match answer {
        Ok(order) => store.with_order(order).with_order_items(rows),
        Err(_) => store,
    }
}

/// Creates the order `order_id`, stamped `created_at`, with the rows `rows` for the user
/// that the token header resolves to at the instant `now`. The order and all its rows are
/// stored, or nothing is.
pub fn create_order_with(
    header: Option<&[u8]>,
    note: Option<String>,
    now: i64,
    order_id: u128,
    created_at: chrono::NaiveDateTime,
    rows: Vec<OrderItem>,
    store: &mut Store,
) -> (r: Result<Order, ApiError>)
    ensures
        order_answer(r) == creation_request(
            old(store)@,
            header_bytes(header),
            opt_text(note),
            now,
            order_id,
            created_at,
            order_items_view(rows@),
        ),
        final(store)@ == store_after_creation(
            old(store)@,
            order_answer(r),
            order_items_view(rows@),
        ),
{
    let user_id = match authenticate_at(header, now, store) {
        Ok(user_id) => user_id,
        Err(e) => {
            return Err(e);
        },
    };
    let new_order = Order { order_id, user_id, note, created_at };
    let stored = new_order.clone();
    match store.add_order_with_items(stored, rows) {
        Ok(()) => Ok(new_order),
        Err(e) => Err(e),
    }
}

/// Creates an order with its lines for the user that the token header resolves to now, the
/// order and each line under a fresh random id.
///
/// The order and all its lines are stored, or nothing is. A request that is not
/// authenticated is answered with the failure of authentication; an authenticated one is
/// answered with the order, or with `InternalError` where the store refuses the rows.
pub fn create_order(header: Option<&[u8]>, form: &NewOrder, store: &mut Store) -> (r: Result<
    Order,
    ApiError,
>)
    ensures
        exists|
            now: i64,
            order_id: u128,
            created_at: chrono::NaiveDateTime,
            rows: Seq<OrderItemView>,
        |
            {
                &&& are_rows_of(rows, order_id, new_items_view(form.items@))
                &&& order_answer(r) == #[trigger] creation_request(
                    old(store)@,
                    header_bytes(header),
                    opt_text(form.note),
                    now,
                    order_id,
                    created_at,
                    rows,
                )
                &&& final(store)@ == store_after_creation(old(store)@, order_answer(r), rows)
            },
        exists|now: i64|
            match #[trigger] authentication(header_bytes(header), now, old(store)@) {
                Err(e) => r == Err::<Order, ApiError>(e) && final(store)@ == old(store)@,
                Ok(uid) => match r {
                    Ok(order) => order.user_id == uid,
                    Err(e) => e == ApiError::InternalError && final(store)@ == old(store)@,
                },
            },
        r matches Ok(order) ==> opt_text(order.note) == opt_text(form.note),
        r matches Ok(order) ==> final(store)@.has_order(order.order_id),
        r is Err ==> final(store)@ == old(store)@,
        header is None ==> r == Err::<Order, ApiError>(ApiError::Unauthorized),
{
    let (created_at, now) = current_time();
    let order_id = random_id();
    let rows = new_order_items(order_id, &form.items);
    let ghost built = order_items_view(rows@);
    let ghost before = store@;
    let r = create_order_with(header, form.note.clone(), now, order_id, created_at, rows, store);
    proof {
        assert(order_answer(r) == creation_request(
            before,
            header_bytes(header),
            opt_text(form.note),
            now,
            order_id,
            created_at,
            built,
        ));
        if let Ok(order) = order_answer(r) {
            assert(store@.orders[before.orders.len() as int] == order);
        }
    }
    r
}

/// Lists the orders of the user that the token header resolves to at the instant `now`.
pub fn get_order_details_for_user_at(header: Option<&[u8]>, now: i64, store: &Store) -> (r: Result<
    Vec<OrderDetails>,
    ApiError,
>)
    ensures
        listing_answer(r) == listing_request(store@, header_bytes(header), now),
{
    let user_id = match authenticate_at(header, now, store) {
        Ok(user_id) => user_id,
        Err(e) => {
            return Err(e);
        },
    };
    find_all_orders_for_user(user_id, store)
}

/// Lists the orders of the user that the token header resolves to now.
pub fn get_order_details_for_user(header: Option<&[u8]>, store: &Store) -> (r: Result<
    Vec<OrderDetails>,
    ApiError,
>)
    ensures
        exists|now: i64|
            listing_answer(r) == #[trigger] listing_request(store@, header_bytes(header), now),
        header is None ==> (r matches Err(e) && e == ApiError::Unauthorized),
{
    let (_, now) = current_time();
    let r = get_order_details_for_user_at(header, now, store);
    assert(listing_answer(r) == listing_request(store@, header_bytes(header), now));
    r
}

/// Gets the order `order_id` for the user that the token header resolves to at the instant
/// `now`.
pub fn get_order_at(header: Option<&[u8]>, order_id: u128, now: i64, store: &Store) -> (r: Result<
    OrderDetails,
    ApiError,
>)
    ensures
        details_answer(r) == order_request(store@, header_bytes(header), order_id, now),
{
    let user_id = match authenticate_at(header, now, store) {
        Ok(user_id) => user_id,
        Err(e) => {
            return Err(e);
        },
    };
    find_order_by_id(user_id, order_id, store)
}

/// Gets the order `order_id` for the user that the token header resolves to now.
pub fn get_order(header: Option<&[u8]>, order_id: u128, store: &Store) -> (r: Result<
    OrderDetails,
    ApiError,
>)
    ensures
        exists|now: i64|
            details_answer(r) == #[trigger] order_request(
                store@,
                header_bytes(header),
                order_id,
                now,
            ),
        header is None ==> (r matches Err(e) && e == ApiError::Unauthorized),
{
    let (_, now) = current_time();
    let r = get_order_at(header, order_id, now, store);
    assert(details_answer(r) == order_request(store@, header_bytes(header), order_id, now));
    r
}

/// A request for an order of somebody else is answered with `NotFound`, whoever is
/// authenticated.
pub proof fn lemma_request_for_foreign_order(
    store: StoreView,
    header: Option<Seq<u8>>,
    now: i64,
    user_id: u128,
    order: OrderView,
)
    requires
        store.wf(),
        authentication(header, now, store) == Ok::<u128, ApiError>(user_id),
        store.orders.contains(order),
        order.user_id != user_id,
    ensures
        order_request(store, header, order.order_id, now) == Err::<OrderDetailsView, ApiError>(
            ApiError::NotFound,
        ),
{
    lemma_foreign_order_not_found(store, order, user_id);
}

} // verus!
