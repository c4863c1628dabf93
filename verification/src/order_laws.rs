//! What holds of reading and writing orders, whatever the store holds: totals are exact,
//! nobody is shown an order of somebody else, a listing is complete, and what was written
//! is read back.

use vstd::prelude::*;
use crate::errors::ApiError;
use crate::models::{NewOrderItemView, OrderDetailsView, OrderItemView, OrderView};
use crate::order_actions::{
    are_rows_of, fits_total, is_listed, is_row_of, lemma_listed_orders_step, lemma_order_with_id,
    lemma_owner_is_unique, lines_of, listed_orders, order_lookup, order_total, orders_listing,
    shown_lines, shown_order,
};
use crate::store::{StoreView, contains_order_id, distinct_order_ids, lemma_with_order_wf};

verus! {

/// The total that an owner is shown is the sum of quantity times unit price over the lines
/// of the order, and the lines are shown in the order of their insertion.
pub proof fn lemma_lookup_is_exact(store: StoreView, user_id: u128, oid: u128)
    requires
        store.wf(),
    ensures
        order_lookup(store, user_id, oid) matches Ok(details) ==> {
            &&& details.order_id == oid
            &&& details.user_id == user_id
            &&& details.order_total == order_total(lines_of(store.order_items, oid))
            &&& details.items == Some(shown_lines(lines_of(store.order_items, oid)))
            &&& lines_of(store.order_items, oid).len() > 0
        },
{
    if order_lookup(store, user_id, oid) is Ok {
        let at = choose|i: int|
            0 <= i < store.orders.len() && (#[trigger] store.orders[i]).order_id == oid
                && store.orders[i].user_id == user_id;
        assert(store.orders.contains(store.orders[at]));
        lemma_order_with_id(store.orders, store.orders[at]);
    }
}

/// An order of somebody else is not found: whoever asks for an order that belongs to
/// another user gets `NotFound`, as for an order that does not exist.
pub proof fn lemma_foreign_order_not_found(store: StoreView, order: OrderView, user_id: u128)
    requires
        store.wf(),
        store.orders.contains(order),
        order.user_id != user_id,
    ensures
        order_lookup(store, user_id, order.order_id) == Err::<OrderDetailsView, ApiError>(
            ApiError::NotFound,
        ),
{
    lemma_owner_is_unique(store.orders, order, user_id);
}

/// An order that is not stored is not found.
pub proof fn lemma_unknown_order_not_found(store: StoreView, user_id: u128, oid: u128)
    requires
        !store.has_order(oid),
    ensures
        order_lookup(store, user_id, oid) == Err::<OrderDetailsView, ApiError>(ApiError::NotFound),
{
}

/// Among orders with unique ids, the listed ones of the first `k` are orders of the first
/// `k`, and no two of them share an id.
proof fn lemma_listed_are_distinct(
    orders: Seq<OrderView>,
    items: Seq<OrderItemView>,
    user_id: u128,
    k: int,
)
    requires
        distinct_order_ids(orders),
        0 <= k <= orders.len(),
    ensures
        forall|i: int|
            0 <= i < listed_orders(orders.take(k), items, user_id).len() ==> exists|m: int|
                0 <= m < k && #[trigger] orders[m] == #[trigger] listed_orders(
                    orders.take(k),
                    items,
                    user_id,
                )[i],
        distinct_order_ids(listed_orders(orders.take(k), items, user_id)),
    decreases k,
{
    let now = listed_orders(orders.take(k), items, user_id);
    if k == 0 {
        assert(orders.take(0) =~= Seq::empty());
        assert(now =~= Seq::empty()) by {
            reveal(Seq::filter);
        }
    } else {
        let before = listed_orders(orders.take(k - 1), items, user_id);
        lemma_listed_are_distinct(orders, items, user_id, k - 1);
        lemma_listed_orders_step(orders, items, user_id, k - 1);
        assert forall|i: int| 0 <= i < now.len() implies exists|m: int|
            0 <= m < k && #[trigger] orders[m] == #[trigger] now[i] by {
            if i < before.len() {
                let m = choose|m: int| 0 <= m < k - 1 && #[trigger] orders[m] == before[i];
                assert(orders[m] == now[i]);
            } else {
                assert(orders[k - 1] == now[i]);
            }
        }
        assert forall|i: int, j: int| 0 <= i < j < now.len() implies (#[trigger] now[i]).order_id
            != (#[trigger] now[j]).order_id by {
            if j < before.len() {
                assert(before[i].order_id != before[j].order_id);
            } else {
                let m = choose|m: int| 0 <= m < k - 1 && #[trigger] orders[m] == before[i];
                assert(orders[m].order_id != orders[k - 1].order_id);
            }
        }
    }
}

/// The listing of a user holds exactly the stored orders of that user that have a line:
/// every entry shows such an order, without its lines, every such order has its entry, and
/// no order has two.
pub proof fn lemma_listing_is_exact(store: StoreView, user_id: u128, list: Seq<OrderDetailsView>)
    requires
        store.wf(),
        orders_listing(store, user_id) == Ok::<Seq<OrderDetailsView>, ApiError>(list),
    ensures
        forall|i: int, j: int|
            0 <= i < j < list.len() ==> (#[trigger] list[i]).order_id != (
            #[trigger] list[j]).order_id,
        forall|i: int|
            0 <= i < list.len() ==> {
                &&& (#[trigger] list[i]).items is None
                &&& list[i].user_id == user_id
                &&& lines_of(store.order_items, list[i].order_id).len() > 0
                &&& list[i].order_total == order_total(
                    lines_of(store.order_items, list[i].order_id),
                )
                &&& exists|order: OrderView| #[trigger]
                    store.orders.contains(order) && list[i] == shown_order(
                        order,
                        store.order_items,
                        false,
                    )
            },
        forall|order: OrderView| #[trigger]
            store.orders.contains(order) && is_listed(order, user_id, store.order_items)
                ==> list.contains(shown_order(order, store.order_items, false)),
{
    let items = store.order_items;
    let pred = |order: OrderView| is_listed(order, user_id, items);
    let listed = listed_orders(store.orders, items, user_id);
    assert(list == listed.map_values(|order: OrderView| shown_order(order, items, false)));
    assert(store.orders.take(store.orders.len() as int) =~= store.orders);
    lemma_listed_are_distinct(store.orders, items, user_id, store.orders.len() as int);
    assert forall|i: int, j: int| 0 <= i < j < list.len() implies (#[trigger] list[i]).order_id
        != (#[trigger] list[j]).order_id by {
        assert(listed[i].order_id != listed[j].order_id);
    }
    assert forall|i: int| 0 <= i < list.len() implies {
        &&& (#[trigger] list[i]).items is None
        &&& list[i].user_id == user_id
        &&& lines_of(items, list[i].order_id).len() > 0
        &&& list[i].order_total == order_total(lines_of(items, list[i].order_id))
        &&& exists|order: OrderView| #[trigger]
            store.orders.contains(order) && list[i] == shown_order(order, items, false)
    } by {
        store.orders.lemma_filter_pred(pred, i);
        assert(listed.contains(listed[i]));
        store.orders.lemma_filter_contains_rev(pred, listed[i]);
        assert(store.orders.contains(listed[i]) && list[i] == shown_order(
            listed[i],
            items,
            false,
        ));
    }
    assert forall|order: OrderView| #[trigger]
        store.orders.contains(order) && is_listed(order, user_id, items) implies list.contains(
        shown_order(order, items, false),
    ) by {
        let at = choose|i: int| 0 <= i < store.orders.len() && store.orders[i] == order;
        store.orders.lemma_filter_contains(pred, at);
        let pos = choose|i: int| 0 <= i < listed.len() && listed[i] == order;
        assert(list[pos] == shown_order(order, items, false));
    }
}

/// Among rows none of which belongs to the order `oid`, the order has no line.
proof fn lemma_lines_of_none(items: Seq<OrderItemView>, oid: u128)
    requires
        forall|i: int| 0 <= i < items.len() ==> (#[trigger] items[i]).order_id != oid,
    ensures
        lines_of(items, oid) == Seq::<OrderItemView>::empty(),
{
    let pred = |line: OrderItemView| line.order_id == oid;
    let lines = lines_of(items, oid);
    if lines.len() > 0 {
        items.lemma_filter_pred(pred, 0);
        assert(lines.contains(lines[0]));
        items.lemma_filter_contains_rev(pred, lines[0]);
        let at = choose|i: int| 0 <= i < items.len() && items[i] == lines[0];
        assert(items[at].order_id == oid);
    }
    assert(lines =~= Seq::<OrderItemView>::empty());
}

/// Rows all of which belong to the order `oid` are its lines.
proof fn lemma_lines_of_all(items: Seq<OrderItemView>, oid: u128)
    requires
        forall|i: int| 0 <= i < items.len() ==> (#[trigger] items[i]).order_id == oid,
    ensures
        lines_of(items, oid) == items,
    decreases items.len(),
{
    let pred = |line: OrderItemView| line.order_id == oid;
    if items.len() == 0 {
        reveal(Seq::filter);
        assert(lines_of(items, oid) =~= items);
    } else {
        let front = items.drop_last();
        assert forall|i: int| 0 <= i < front.len() implies (#[trigger] front[i]).order_id
            == oid by {
            assert(front[i] == items[i]);
        }
        lemma_lines_of_all(front, oid);
        assert(items =~= front.push(items.last()));
        front.lemma_filter_push(items.last(), pred);
    }
}

/// The sum of quantity times unit price over the lines of a request.
pub open spec fn requested_total(lines: Seq<NewOrderItemView>) -> int
    decreases lines.len(),
{
    if lines.len() == 0 {
        0
    } else {
        requested_total(lines.drop_last()) + lines.last().qty * lines.last().price
    }
}

/// Rows stored for the lines of a request sum to the total of the request.
proof fn lemma_rows_total(rows: Seq<OrderItemView>, order_id: u128, lines: Seq<NewOrderItemView>)
    requires
        are_rows_of(rows, order_id, lines),
    ensures
        order_total(rows) == requested_total(lines),
    decreases rows.len(),
{
    if rows.len() > 0 {
        let front = rows.drop_last();
        let given = lines.drop_last();
        assert forall|i: int| 0 <= i < front.len() implies is_row_of(
            #[trigger] front[i],
            order_id,
            given[i],
        ) by {
            assert(is_row_of(rows[i], order_id, lines[i]));
        }
        lemma_rows_total(front, order_id, given);
        assert(is_row_of(rows[rows.len() - 1], order_id, lines[rows.len() - 1]));
    }
}

/// The lines of an order that was not stored before are the rows that were added for it.
proof fn lemma_lines_of_new_order(store: StoreView, oid: u128, rows: Seq<OrderItemView>)
    requires
        store.wf(),
        !store.has_order(oid),
        forall|i: int| 0 <= i < rows.len() ==> (#[trigger] rows[i]).order_id == oid,
    ensures
        lines_of(store.order_items + rows, oid) == rows,
{
    let pred = |line: OrderItemView| line.order_id == oid;
    assert forall|i: int| 0 <= i < store.order_items.len() implies (
    #[trigger] store.order_items[i]).order_id != oid by {
        assert(contains_order_id(store.orders, store.order_items[i].order_id));
    }
    lemma_lines_of_none(store.order_items, oid);
    lemma_lines_of_all(rows, oid);
    Seq::filter_distributes_over_add(store.order_items, rows, pred);
    assert(lines_of(store.order_items + rows, oid) =~= rows);
}

/// What is shown of the rows stored for the lines of a request are those lines.
proof fn lemma_shown_rows(rows: Seq<OrderItemView>, order_id: u128, lines: Seq<NewOrderItemView>)
    requires
        are_rows_of(rows, order_id, lines),
    ensures
        shown_lines(rows).len() == lines.len(),
        forall|i: int|
            0 <= i < lines.len() ==> {
                &&& (#[trigger] shown_lines(rows)[i]).description == lines[i].description
                &&& shown_lines(rows)[i].qty == lines[i].qty
                &&& shown_lines(rows)[i].price == lines[i].price
            },
{
    assert forall|i: int| 0 <= i < lines.len() implies {
        &&& (#[trigger] shown_lines(rows)[i]).description == lines[i].description
        &&& shown_lines(rows)[i].qty == lines[i].qty
        &&& shown_lines(rows)[i].price == lines[i].price
    } by {
        assert(is_row_of(rows[i], order_id, lines[i]));
    }
}

/// An order that was stored with the lines of a request is found by its owner: its total is
/// the sum of quantity times unit price over the requested lines, and it shows one line for
/// each requested line, in the order of the request.
pub proof fn lemma_created_order_is_found(
    store: StoreView,
    order: OrderView,
    rows: Seq<OrderItemView>,
    lines: Seq<NewOrderItemView>,
)
    requires
        store.wf(),
        lines.len() > 0,
        are_rows_of(rows, order.order_id, lines),
        store.admits_order_with_items(order, rows),
        fits_total(requested_total(lines)),
    ensures
        order_lookup(
            store.with_order(order).with_order_items(rows),
            order.user_id,
            order.order_id,
        ) == Ok::<OrderDetailsView, ApiError>(
            OrderDetailsView {
                order_id: order.order_id,
                user_id: order.user_id,
                note: order.note,
                order_total: requested_total(lines),
                order_at: order.created_at,
                items: Some(shown_lines(rows)),
            },
        ),
        shown_lines(rows).len() == lines.len(),
        forall|i: int|
            0 <= i < lines.len() ==> {
                &&& (#[trigger] shown_lines(rows)[i]).description == lines[i].description
                &&& shown_lines(rows)[i].qty == lines[i].qty
                &&& shown_lines(rows)[i].price == lines[i].price
            },
{
    let oid = order.order_id;
    let after = store.with_order(order).with_order_items(rows);
    lemma_with_order_wf(store, order);
    lemma_rows_total(rows, oid, lines);
    lemma_shown_rows(rows, oid, lines);
    assert forall|i: int| 0 <= i < rows.len() implies (#[trigger] rows[i]).order_id == oid by {
        assert(is_row_of(rows[i], oid, lines[i]));
    }
    lemma_lines_of_new_order(store, oid, rows);
    let last = store.orders.len() as int;
    assert(after.orders[last] == order);
    assert(after.orders.contains(order));
    lemma_order_with_id(after.orders, order);
}

} // verus!
