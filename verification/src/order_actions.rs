//! Reading orders back as their owner sees them, and writing an order with its lines.

use vstd::prelude::*;
use std::collections::HashMap;
use crate::errors::ApiError;
use crate::models::{
    NewOrderItem, NewOrderItemView, Order, OrderDetails, OrderDetailsView, OrderItem,
    OrderItemDetails, OrderItemDetailsView, OrderItemView, OrderView, details_answer,
    details_view, item_details_view, listing_answer, new_items_view, opt_text, order_items_view,
    orders_view,
};
use crate::runtime::{current_time, random_id};
use crate::store::{Store, StoreView, contains_order_id, distinct_order_ids, position_of_order};

verus! {

/// The lines of the order `oid` among `items`, in the order of their insertion.
pub open spec fn lines_of(items: Seq<OrderItemView>, oid: u128) -> Seq<OrderItemView> {
    items.filter(|line: OrderItemView| line.order_id == oid)
}

/// The amount of one line: quantity times unit price.
pub open spec fn line_amount(line: OrderItemView) -> int {
    line.qty * line.price
}

/// The sum of the amounts of `lines`.
pub open spec fn order_total(lines: Seq<OrderItemView>) -> int
    decreases lines.len(),
{
    if lines.len() == 0 {
        0
    } else {
        order_total(lines.drop_last()) + line_amount(lines.last())
    }
}

/// A line as it is shown: the row without the keys of ownership.
pub open spec fn shown_line(line: OrderItemView) -> OrderItemDetailsView {
    OrderItemDetailsView {
        item_id: line.item_id,
        description: line.description,
        qty: line.qty,
        price: line.price,
    }
}

/// The lines `lines` as they are shown, in the same order.
pub open spec fn shown_lines(lines: Seq<OrderItemView>) -> Seq<OrderItemDetailsView> {
    lines.map_values(|line: OrderItemView| shown_line(line))
}

/// An order with the id `oid` is stored and belongs to `user_id`.
pub open spec fn owns_order(orders: Seq<OrderView>, user_id: u128, oid: u128) -> bool {
    exists|i: int|
        0 <= i < orders.len() && (#[trigger] orders[i]).order_id == oid && orders[i].user_id
            == user_id
}

/// The stored order with the id `oid`. Meant for an id that is stored; ids are unique.
pub open spec fn order_with_id(orders: Seq<OrderView>, oid: u128) -> OrderView {
    orders[choose|i: int| 0 <= i < orders.len() && (#[trigger] orders[i]).order_id == oid]
}

/// `total` can be held in the field of an [`OrderDetails`].
pub open spec fn fits_total(total: int) -> bool {
    i64::MIN <= total <= i64::MAX
}

/// What the owner `user_id` is shown of `order`, whose lines among `items` sum to a total
/// that fits: the order's own fields, the total, and the lines if `with_lines` asks for them.
pub open spec fn shown_order(order: OrderView, items: Seq<OrderItemView>, with_lines: bool)
    -> OrderDetailsView {
    let lines = lines_of(items, order.order_id);
    OrderDetailsView {
        order_id: order.order_id,
        user_id: order.user_id,
        note: order.note,
        order_total: order_total(lines),
        order_at: order.created_at,
        items: if with_lines {
            Some(shown_lines(lines))
        } else {
            None
        },
    }
}

/// What `user_id` gets when asking for the order `oid`.
///
/// The order is found only if it is stored, belongs to `user_id` and has at least one line:
/// an order of somebody else cannot be told from one that does not exist. The total is the
/// exact sum of the amounts of the lines; a sum that the total's type cannot hold is an
/// internal error.
pub open spec fn order_lookup(store: StoreView, user_id: u128, oid: u128) -> Result<
    OrderDetailsView,
    ApiError,
> {
    let lines = lines_of(store.order_items, oid);
    if !owns_order(store.orders, user_id, oid) || lines.len() == 0 {
        Err(ApiError::NotFound)
    } else if !fits_total(order_total(lines)) {
        Err(ApiError::InternalError)
    } else {
        Ok(shown_order(order_with_id(store.orders, oid), store.order_items, true))
    }
}

/// `order` belongs to `user_id` and has at least one line among `items`.
pub open spec fn is_listed(order: OrderView, user_id: u128, items: Seq<OrderItemView>) -> bool {
    order.user_id == user_id && lines_of(items, order.order_id).len() > 0
}

/// The orders that `user_id` is shown in a list, in the order of their insertion.
pub open spec fn listed_orders(
    orders: Seq<OrderView>,
    items: Seq<OrderItemView>,
    user_id: u128,
) -> Seq<OrderView> {
    orders.filter(|order: OrderView| is_listed(order, user_id, items))
}

/// What `user_id` gets when asking for all orders.
///
/// One entry for each stored order of `user_id` that has at least one line, with the exact
/// total of its lines and without the lines themselves. An order without lines is not shown.
/// If one of the totals cannot be held, the whole listing is an internal error.
pub open spec fn orders_listing(store: StoreView, user_id: u128) -> Result<
    Seq<OrderDetailsView>,
    ApiError,
> {
    let listed = listed_orders(store.orders, store.order_items, user_id);
    if forall|i: int|
        0 <= i < listed.len() ==> fits_total(
            order_total(lines_of(store.order_items, (#[trigger] listed[i]).order_id)),
        ) {
        Ok(listed.map_values(|order: OrderView| shown_order(order, store.order_items, false)))
    } else {
        Err(ApiError::InternalError)
    }
}

/// The first `k + 1` rows have the lines of the first `k`, and the row at `k` if it belongs
/// to the order.
pub(crate) proof fn lemma_lines_of_step(items: Seq<OrderItemView>, oid: u128, k: int)
    requires
        0 <= k < items.len(),
    ensures
        lines_of(items.take(k + 1), oid) == if items[k].order_id == oid {
            lines_of(items.take(k), oid).push(items[k])
        } else {
            lines_of(items.take(k), oid)
        },
{
    let pred = |line: OrderItemView| line.order_id == oid;
    assert(items.take(k + 1) =~= items.take(k).push(items[k]));
    items.take(k).lemma_filter_push(items[k], pred);
}

/// An amount lies within 2^62 of zero.
proof fn lemma_line_amount_bound(line: OrderItemView)
    ensures
        -0x4000_0000_0000_0000 <= line_amount(line) <= 0x4000_0000_0000_0000,
{
    let q = line.qty as int;
    let p = line.price as int;
    assert(-0x4000_0000_0000_0000 <= q * p <= 0x4000_0000_0000_0000) by (nonlinear_arith)
        requires
            -0x8000_0000 <= q <= 0x7fff_ffff,
            -0x8000_0000 <= p <= 0x7fff_ffff,
    ;
}

/// Finds the order `oid` for its owner `user_id_arg`, with its total and its lines.
pub fn find_order_by_id(user_id_arg: u128, oid: u128, store: &Store) -> (r: Result<
    OrderDetails,
    ApiError,
>)
    ensures
        details_answer(r) == order_lookup(store@, user_id_arg, oid),
        r matches Ok(details) ==> details.order_total == order_total(
            lines_of(store@.order_items, oid),
        ),
{
    let orders = store.orders();
    let at = match position_of_order(orders, oid) {
        Some(at) => at,
        None => {
            return Err(ApiError::NotFound);
        },
    };
    let order = &orders[at];
    assert(store@.orders[at as int] == order@);
    if order.user_id != user_id_arg {
        proof {
            lemma_owner_is_unique(store@.orders, order@, user_id_arg);
        }
        return Err(ApiError::NotFound);
    }
    proof {
        lemma_order_with_id(store@.orders, order@);
    }
    let rows = store.order_items();
    let ghost items = store@.order_items;
    let mut total: i128 = 0;
    let mut lines: Vec<OrderItemDetails> = Vec::new();
    let mut k: usize = 0;
    assert(items.take(0) =~= Seq::empty());
    assert(lines_of(items.take(0), oid) =~= Seq::empty()) by {
        reveal(Seq::filter);
    }
    while k < rows.len()
        invariant
            k <= rows.len(),
            items == order_items_view(rows@),
            lines.len() == lines_of(items.take(k as int), oid).len(),
            forall|j: int|
                0 <= j < lines.len() ==> lines[j]@ == shown_line(
                    #[trigger] lines_of(items.take(k as int), oid)[j],
                ),
            total == order_total(lines_of(items.take(k as int), oid)),
            -0x4000_0000_0000_0000 * k <= total <= 0x4000_0000_0000_0000 * k,
        decreases rows.len() - k,
    {
        let row = &rows[k];
        proof {
            lemma_lines_of_step(items, oid, k as int);
            lemma_line_amount_bound(row@);
        }
        if row.order_id == oid {
            let ghost before = lines_of(items.take(k as int), oid);
            assert(before.push(row@).drop_last() =~= before);
            let amount: i64 = (row.qty as i64) * (row.price as i64);
            total = total + amount as i128;
            lines.push(
                OrderItemDetails {
                    item_id: row.item_id,
                    description: row.description.clone(),
                    qty: row.qty,
                    price: row.price,
                },
            );
        }
        k += 1;
    }
    assert(items.take(k as int) =~= items);
    assert(item_details_view(lines@) =~= shown_lines(lines_of(items, oid)));
    if lines.len() == 0 {
        return Err(ApiError::NotFound);
    }
    if total < i64::MIN as i128 || total > i64::MAX as i128 {
        return Err(ApiError::InternalError);
    }
    Ok(
        OrderDetails {
            order_id: order.order_id,
            user_id: order.user_id,
            note: order.note.clone(),
            order_total: total as i64,
            order_at: order.created_at,
            items: Some(lines),
        },
    )
}

/// The first `k + 1` orders list what the first `k` list, and the order at `k` if it is listed.
pub(crate) proof fn lemma_listed_orders_step(
    orders: Seq<OrderView>,
    items: Seq<OrderItemView>,
    user_id: u128,
    k: int,
)
    requires
        0 <= k < orders.len(),
    ensures
        listed_orders(orders.take(k + 1), items, user_id) == if is_listed(
            orders[k],
            user_id,
            items,
        ) {
            listed_orders(orders.take(k), items, user_id).push(orders[k])
        } else {
            listed_orders(orders.take(k), items, user_id)
        },
{
    let pred = |order: OrderView| is_listed(order, user_id, items);
    assert(orders.take(k + 1) =~= orders.take(k).push(orders[k]));
    orders.take(k).lemma_filter_push(orders[k], pred);
}

/// Sums the amounts of `rows` by order: the map holds an order id exactly if the order has a
/// line, and then the total of its lines.
fn totals_by_order(rows: &Vec<OrderItem>) -> (totals: HashMap<u128, i128>)
    ensures
        forall|oid: u128| #[trigger]
            totals@.contains_key(oid) <==> lines_of(order_items_view(rows@), oid).len() > 0,
        forall|oid: u128|
            totals@.contains_key(oid) ==> #[trigger] totals@[oid] == order_total(
                lines_of(order_items_view(rows@), oid),
            ),
{
    broadcast use vstd::std_specs::hash::group_hash_axioms;

    let ghost items = order_items_view(rows@);
    let mut totals: HashMap<u128, i128> = HashMap::new();
    let mut k: usize = 0;
    assert(items.take(0) =~= Seq::empty());
    assert forall|oid: u128| lines_of(items.take(0), oid).len() == 0 by {
        reveal(Seq::filter);
    }
    while k < rows.len()
        invariant
            k <= rows.len(),
            items == order_items_view(rows@),
            forall|oid: u128| #[trigger]
                totals@.contains_key(oid) <==> lines_of(items.take(k as int), oid).len() > 0,
            forall|oid: u128|
                totals@.contains_key(oid) ==> #[trigger] totals@[oid] == order_total(
                    lines_of(items.take(k as int), oid),
                ),
            forall|oid: u128|
                totals@.contains_key(oid) ==> -0x4000_0000_0000_0000 * k <= #[trigger] totals@[oid]
                    <= 0x4000_0000_0000_0000 * k,
        decreases rows.len() - k,
    {
        let row = &rows[k];
        proof {
            lemma_line_amount_bound(row@);
        }
        let amount: i64 = (row.qty as i64) * (row.price as i64);
        let so_far: i128 = match totals.get(&row.order_id) {
            Some(total) => *total,
            None => 0,
        };
        let ghost before = totals@;
        proof {
            lemma_lines_of_step(items, row.order_id, k as int);
            let lines = lines_of(items.take(k as int), row.order_id);
            assert(lines.push(row@).drop_last() =~= lines);
            assert(before.contains_key(row.order_id) || lines.len() == 0);
        }
        totals.insert(row.order_id, so_far + amount as i128);
        proof {
            assert forall|oid: u128| #[trigger]
                totals@.contains_key(oid) <==> lines_of(items.take(k + 1), oid).len() > 0 by {
                lemma_lines_of_step(items, oid, k as int);
                assert(before.contains_key(oid) <==> lines_of(items.take(k as int), oid).len() > 0);
            }
            assert forall|oid: u128| totals@.contains_key(oid) implies #[trigger] totals@[oid]
                == order_total(lines_of(items.take(k + 1), oid)) && -0x4000_0000_0000_0000 * (k
                + 1) <= totals@[oid] <= 0x4000_0000_0000_0000 * (k + 1) by {
                lemma_lines_of_step(items, oid, k as int);
                if oid != row.order_id {
                    assert(before.contains_key(oid));
                    assert(totals@[oid] == before[oid]);
                } else {
                    let lines = lines_of(items.take(k as int), oid);
                    assert(order_total(lines.push(row@)) == order_total(lines) + line_amount(row@));
                }
            }
        }
        k += 1;
    }
    assert(items.take(k as int) =~= items);
    totals
}

/// Finds all orders of the user `uid` that have lines, each with its total and without its
/// lines.
pub fn find_all_orders_for_user(uid: u128, store: &Store) -> (r: Result<
    Vec<OrderDetails>,
    ApiError,
>)
    ensures
        listing_answer(r) == orders_listing(store@, uid),
{
    broadcast use vstd::std_specs::hash::group_hash_axioms;

    let totals = totals_by_order(store.order_items());
    let orders = store.orders();
    let ghost items = store@.order_items;
    let ghost all = store@.orders;
    let mut list: Vec<OrderDetails> = Vec::new();
    let mut k: usize = 0;
    assert(all.take(0) =~= Seq::empty());
    assert(listed_orders(all.take(0), items, uid) =~= Seq::empty()) by {
        reveal(Seq::filter);
    }
    while k < orders.len()
        invariant
            k <= orders.len(),
            all == orders_view(orders@),
            all == store@.orders,
            items == store@.order_items,
            forall|oid: u128| #[trigger]
                totals@.contains_key(oid) <==> lines_of(items, oid).len() > 0,
            forall|oid: u128|
                totals@.contains_key(oid) ==> #[trigger] totals@[oid] == order_total(
                    lines_of(items, oid),
                ),
            list.len() == listed_orders(all.take(k as int), items, uid).len(),
            forall|j: int|
                0 <= j < list.len() ==> list[j]@ == shown_order(
                    #[trigger] listed_orders(all.take(k as int), items, uid)[j],
                    items,
                    false,
                ),
            forall|j: int|
                0 <= j < list.len() ==> fits_total(
                    order_total(
                        lines_of(
                            items,
                            (#[trigger] listed_orders(all.take(k as int), items, uid)[j]).order_id,
                        ),
                    ),
                ),
        decreases orders.len() - k,
    {
        let order = &orders[k];
        proof {
            lemma_listed_orders_step(all, items, uid, k as int);
        }
        if order.user_id == uid {
            match totals.get(&order.order_id) {
                Some(total) => {
                    if *total < i64::MIN as i128 || *total > i64::MAX as i128 {
                        proof {
                            let pred = |o: OrderView| is_listed(o, uid, items);
                            all.lemma_filter_contains(pred, k as int);
                            let listed = listed_orders(all, items, uid);
                            let at = choose|i: int|
                                0 <= i < listed.len() && listed[i] == all[k as int];
                            assert(!fits_total(order_total(lines_of(items, listed[at].order_id))));
                        }
                        return Err(ApiError::InternalError);
                    }
                    list.push(
                        OrderDetails {
                            order_id: order.order_id,
                            user_id: order.user_id,
                            note: order.note.clone(),
                            order_total: *total as i64,
                            order_at: order.created_at,
                            items: None,
                        },
                    );
                },
                None => {},
            }
        }
        k += 1;
    }
    assert(all.take(k as int) =~= all);
    assert(details_view(list@) =~= listed_orders(all, items, uid).map_values(
        |order: OrderView| shown_order(order, items, false),
    ));
    Ok(list)
}

/// `row` is the line `line` stored under the order `order_id`.
pub open spec fn is_row_of(row: OrderItemView, order_id: u128, line: NewOrderItemView) -> bool {
    &&& row.order_id == order_id
    &&& row.description == line.description
    &&& row.qty == line.qty
    &&& row.price == line.price
}

/// `rows` are the lines `lines` stored under the order `order_id`, one row for each line and
/// in the same order.
pub open spec fn are_rows_of(
    rows: Seq<OrderItemView>,
    order_id: u128,
    lines: Seq<NewOrderItemView>,
) -> bool {
    &&& rows.len() == lines.len()
    &&& forall|i: int| 0 <= i < rows.len() ==> is_row_of(#[trigger] rows[i], order_id, lines[i])
}

/// Builds the rows for `lines` under the order `order_id_arg`, each with a fresh random id
/// and stamped with the time at which it was built.
pub fn new_order_items(order_id_arg: u128, lines: &Vec<NewOrderItem>) -> (rows: Vec<OrderItem>)
    ensures
        are_rows_of(order_items_view(rows@), order_id_arg, new_items_view(lines@)),
{
    let mut rows: Vec<OrderItem> = Vec::new();
    let mut i: usize = 0;
    while i < lines.len()
        invariant
            i <= lines.len(),
            rows.len() == i,
            forall|j: int| 0 <= j < i ==> is_row_of(#[trigger] rows[j]@, order_id_arg, lines[j]@),
        decreases lines.len() - i,
    {
        let line = &lines[i];
        let (created_at, _) = current_time();
        rows.push(
            OrderItem {
                item_id: random_id(),
                order_id: order_id_arg,
                description: line.description.clone(),
                qty: line.qty,
                price: line.price,
                created_at,
            },
        );
        i += 1;
    }
    rows
}

/// Stores a new order of `user_id_arg` under the id `order_id_arg`, stamped with the current
/// time.
///
/// The store refuses the row, with `InternalError` and without any change, exactly if the id
/// is taken or the user is not stored.
pub fn insert_new_order(
    order_id_arg: u128,
    user_id_arg: u128,
    note_arg: Option<String>,
    store: &mut Store,
) -> (r: Result<Order, ApiError>)
    ensures
        r is Ok <==> !old(store)@.has_order(order_id_arg) && old(store)@.has_user(user_id_arg),
        match r {
            Ok(order) => {
                &&& order.order_id == order_id_arg
                &&& order.user_id == user_id_arg
                &&& opt_text(order.note) == opt_text(note_arg)
                &&& final(store)@ == old(store)@.with_order(order@)
                &&& final(store)@.has_order(order_id_arg)
            },
            Err(e) => e == ApiError::InternalError && final(store)@ == old(store)@,
        },
{
    let (created_at, _) = current_time();
    let new_order = Order {
        order_id: order_id_arg,
        user_id: user_id_arg,
        note: note_arg,
        created_at,
    };
    let stored = new_order.clone();
    let ghost before = store@;
    match store.add_order(stored) {
        Ok(()) => {
            assert(store@.orders[before.orders.len() as int] == new_order@);
            Ok(new_order)
        },
        Err(e) => Err(e),
    }
}

/// Stores the lines `order_items_arg` under the order `order_id_arg` in one batch, each with
/// a fresh random id and stamped with the current time.
///
/// The store refuses the batch as a whole, with `InternalError` and without any change, if
/// the order is not stored or a fresh id happens to be in use. A batch without lines is
/// always stored, and so is the first line of a store under a stored order.
pub fn insert_new_order_items(
    order_id_arg: u128,
    order_items_arg: &Vec<NewOrderItem>,
    store: &mut Store,
) -> (r: Result<bool, ApiError>)
    ensures
        match r {
            Ok(done) => {
                &&& done
                &&& exists|rows: Seq<OrderItemView>|
                    {
                        &&& are_rows_of(rows, order_id_arg, new_items_view(order_items_arg@))
                        &&& old(store)@.admits_order_items(rows)
                        &&& final(store)@ == old(store)@.with_order_items(rows)
                    }
            },
            Err(e) => e == ApiError::InternalError && final(store)@ == old(store)@,
        },
        order_items_arg.len() > 0 && !old(store)@.has_order(order_id_arg) ==> r is Err,
        order_items_arg.len() == 0 ==> r is Ok,
        old(store)@.has_order(order_id_arg) && old(store)@.order_items.len() == 0
            && order_items_arg.len() <= 1 ==> r is Ok,
{
    let rows = new_order_items(order_id_arg, order_items_arg);
    let ghost built = order_items_view(rows@);
    proof {
        if order_items_arg.len() > 0 && !store@.has_order(order_id_arg) {
            assert(built[0].order_id == order_id_arg);
        }
        if store@.has_order(order_id_arg) {
            assert forall|i: int| 0 <= i < built.len() implies contains_order_id(
                store@.orders,
                (#[trigger] built[i]).order_id,
            ) by {
                assert(built[i].order_id == order_id_arg);
            }
        }
    }
    match store.add_order_items(rows) {
        Ok(()) => Ok(true),
        Err(e) => Err(e),
    }
}

/// Stores a new order of `user_id` with the lines `items` as one unit, the order under a
/// fresh random id: both the order and all its lines are stored, or nothing is.
///
/// The store refuses the unit, with `InternalError`, if the user is not stored or a fresh id
/// happens to be in use; the first order of a store, with one line at most, is always
/// stored. An order may be stored without lines; no reader is shown it.
pub fn create_order_with_items(
    user_id: u128,
    note: Option<String>,
    items: &Vec<NewOrderItem>,
    store: &mut Store,
) -> (r: Result<Order, ApiError>)
    ensures
        match r {
            Ok(order) => {
                &&& order.user_id == user_id
                &&& opt_text(order.note) == opt_text(note)
                &&& final(store)@.has_order(order.order_id)
                &&& exists|rows: Seq<OrderItemView>|
                    {
                        &&& are_rows_of(rows, order.order_id, new_items_view(items@))
                        &&& old(store)@.admits_order_with_items(order@, rows)
                        &&& final(store)@ == old(store)@.with_order(order@).with_order_items(rows)
                    }
            },
            Err(e) => e == ApiError::InternalError && final(store)@ == old(store)@,
        },
        !old(store)@.has_user(user_id) ==> r is Err,
        old(store)@.has_user(user_id) && old(store)@.orders.len() == 0 && items.len() <= 1
            ==> r is Ok,
{
    let (created_at, _) = current_time();
    let new_order = Order { order_id: random_id(), user_id, note, created_at };
    let rows = new_order_items(new_order.order_id, items);
    proof {
        use_type_invariant(&*store);
        if store@.orders.len() == 0 && items.len() <= 1 {
            let built = order_items_view(rows@);
            assert(store@.order_items.len() == 0) by {
                if store@.order_items.len() > 0 {
                    assert(contains_order_id(store@.orders, store@.order_items[0].order_id));
                }
            }
            assert forall|i: int| 0 <= i < built.len() implies contains_order_id(
                store@.with_order(new_order@).orders,
                (#[trigger] built[i]).order_id,
            ) by {
                assert(store@.with_order(new_order@).orders[0].order_id == built[i].order_id);
            }
        }
    }
    let stored = new_order.clone();
    let ghost before = store@;
    match store.add_order_with_items(stored, rows) {
        Ok(()) => {
            assert(store@.orders[before.orders.len() as int] == new_order@);
            Ok(new_order)
        },
        Err(e) => Err(e),
    }
}

/// Where ids are unique, the order `order` is the one that its id stands for.
pub(crate) proof fn lemma_order_with_id(orders: Seq<OrderView>, order: OrderView)
    requires
        distinct_order_ids(orders),
        orders.contains(order),
    ensures
        order_with_id(orders, order.order_id) == order,
{
    let at = choose|i: int| 0 <= i < orders.len() && orders[i] == order;
    assert(orders[at].order_id == order.order_id);
    let chosen = choose|i: int|
        0 <= i < orders.len() && (#[trigger] orders[i]).order_id == order.order_id;
    assert(chosen == at);
}

/// Where ids are unique, an order that belongs to one user is owned by no other.
pub(crate) proof fn lemma_owner_is_unique(orders: Seq<OrderView>, order: OrderView, user_id: u128)
    requires
        distinct_order_ids(orders),
        orders.contains(order),
        order.user_id != user_id,
    ensures
        !owns_order(orders, user_id, order.order_id),
{
    let at = choose|i: int| 0 <= i < orders.len() && orders[i] == order;
    if owns_order(orders, user_id, order.order_id) {
        let other = choose|i: int|
            0 <= i < orders.len() && (#[trigger] orders[i]).order_id == order.order_id
                && orders[i].user_id == user_id;
        assert(orders[at].order_id == orders[other].order_id);
        assert(other == at);
    }
}

} // verus!
