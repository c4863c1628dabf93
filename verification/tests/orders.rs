use chrono::NaiveDateTime;
use order_service::errors::ApiError;
use order_service::models::{NewOrder, NewOrderItem, Order, OrderDetails, OrderItem, User};
use order_service::order_actions::{
    create_order_with_items, find_all_orders_for_user, find_order_by_id, insert_new_order,
    insert_new_order_items, new_order_items,
};
use order_service::order_handlers::{
    create_order, create_order_with, get_order, get_order_at, get_order_details_for_user,
    get_order_details_for_user_at,
};
use order_service::store::Store;
use order_service::token_utils::{generate_jwt, generate_jwt_at, ONE_WEEK};

fn at(seconds: i64) -> NaiveDateTime {
    chrono::DateTime::from_timestamp(seconds, 0).unwrap().naive_utc()
}

fn user(id: u128, email: &str) -> User {
    User {
        user_id: id,
        first_name: "Ada".to_string(),
        last_name: "Lovelace".to_string(),
        email: email.to_string(),
        password: "s3cret".to_string(),
        created_at: at(1_700_000_000),
    }
}

fn order(id: u128, owner: u128, note: Option<&str>) -> Order {
    Order {
        order_id: id,
        user_id: owner,
        note: note.map(|n| n.to_string()),
        created_at: at(1_700_000_000 + id as i64),
    }
}

fn item(id: u128, order_id: u128, qty: i32, price: i32) -> OrderItem {
    OrderItem {
        item_id: id,
        order_id,
        description: format!("item {}", id),
        qty,
        price,
        created_at: at(1_700_000_200),
    }
}

fn line(description: &str, qty: i32, price: i32) -> NewOrderItem {
    NewOrderItem { description: description.to_string(), qty, price }
}

fn two_users() -> Store {
    let mut store = Store::new();
    store.add_user(user(1, "a@x.org")).unwrap();
    store.add_user(user(2, "b@x.org")).unwrap();
    store
}

/// User 1 owns orders 10 (two lines), 12 (no line) and 13 (one line); user 2 owns order 11.
fn sample() -> Store {
    Store::from_tables(
        vec![user(1, "a@x.org"), user(2, "b@x.org"), user(3, "c@x.org")],
        vec![
            order(10, 1, Some("first")),
            order(11, 2, None),
            order(12, 1, Some("empty")),
            order(13, 1, None),
        ],
        vec![
            item(100, 10, 2, 500),
            item(101, 11, 7, 11),
            item(102, 10, 1, 300),
            item(103, 13, 3, 0),
            item(104, 11, 1, 1),
        ],
    )
    .unwrap()
}

fn ids(list: &[OrderDetails]) -> Vec<u128> {
    list.iter().map(|d| d.order_id).collect()
}

#[test]
fn scenario_create_then_get() {
    let mut store = two_users();
    let items = vec![line("A", 2, 500), line("B", 1, 300)];
    let order = create_order_with_items(1, Some("please".to_string()), &items, &mut store).unwrap();
    let details = find_order_by_id(1, order.order_id, &store).unwrap();
    assert_eq!(details.order_total, 1300);
    let lines = details.items.unwrap();
    assert_eq!(lines.len(), 2);
    assert_eq!(lines[0].description, "A");
    assert_eq!(lines[0].qty, 2);
    assert_eq!(lines[0].price, 500);
    assert_eq!(lines[1].description, "B");
    assert_eq!(lines[1].qty, 1);
    assert_eq!(lines[1].price, 300);
    assert_ne!(lines[0].item_id, lines[1].item_id);
    assert_eq!(details.order_id, order.order_id);
    assert_eq!(details.user_id, 1);
    assert_eq!(details.note.as_deref(), Some("please"));
    assert_eq!(details.order_at, order.created_at);
}

#[test]
fn find_order_by_id_sums_quantity_times_price() {
    let store = sample();
    let details = find_order_by_id(1, 10, &store).unwrap();
    assert_eq!(details.order_total, 2 * 500 + 1 * 300);
    assert_eq!(details.order_id, 10);
    assert_eq!(details.user_id, 1);
    assert_eq!(details.note.as_deref(), Some("first"));
    assert_eq!(details.order_at, at(1_700_000_010));
    let lines = details.items.unwrap();
    assert_eq!(lines.iter().map(|l| l.item_id).collect::<Vec<_>>(), vec![100, 102]);
    assert_eq!(lines[0].description, "item 100");
    let other = find_order_by_id(2, 11, &store).unwrap();
    assert_eq!(other.order_total, 7 * 11 + 1);
    assert_eq!(other.note, None);
    let free = find_order_by_id(1, 13, &store).unwrap();
    assert_eq!(free.order_total, 0);
    assert_eq!(free.items.unwrap().len(), 1);
}

#[test]
fn find_order_by_id_of_another_user_is_not_found() {
    let store = sample();
    assert_eq!(find_order_by_id(2, 10, &store).err(), Some(ApiError::NotFound));
    assert_eq!(find_order_by_id(1, 11, &store).err(), Some(ApiError::NotFound));
    assert_eq!(find_order_by_id(3, 10, &store).err(), Some(ApiError::NotFound));
    assert_eq!(find_order_by_id(4, 10, &store).err(), Some(ApiError::NotFound));
}

#[test]
fn find_order_by_id_of_unknown_order_is_not_found() {
    let store = sample();
    assert_eq!(find_order_by_id(1, 14, &store).err(), Some(ApiError::NotFound));
    assert_eq!(find_order_by_id(1, 1, &store).err(), Some(ApiError::NotFound));
    assert_eq!(find_order_by_id(1, 10, &Store::new()).err(), Some(ApiError::NotFound));
}

#[test]
fn find_order_by_id_of_order_without_lines_is_not_found() {
    let store = sample();
    assert_eq!(find_order_by_id(1, 12, &store).err(), Some(ApiError::NotFound));
}

#[test]
fn totals_use_the_wider_type() {
    let max = i32::MAX;
    let store = Store::from_tables(
        vec![user(1, "a@x.org")],
        vec![order(10, 1, None), order(11, 1, None), order(12, 1, None)],
        vec![
            item(100, 10, max, max),
            item(101, 10, max, max),
            item(102, 11, i32::MIN, max),
            item(103, 11, 1, -5),
            item(104, 12, i32::MIN, i32::MIN),
            item(105, 12, -1, 1),
        ],
    )
    .unwrap();
    let square = (max as i64) * (max as i64);
    assert_eq!(find_order_by_id(1, 10, &store).unwrap().order_total, 2 * square);
    assert_eq!(2 * square, 9_223_372_028_264_841_218);
    assert_eq!(
        find_order_by_id(1, 11, &store).unwrap().order_total,
        (i32::MIN as i64) * (max as i64) - 5
    );
    assert_eq!(find_order_by_id(1, 12, &store).unwrap().order_total, (1i64 << 62) - 1);
    let list = find_all_orders_for_user(1, &store).unwrap();
    assert_eq!(list[0].order_total, 2 * square);
    assert_eq!(list[2].order_total, 4_611_686_018_427_387_903);
}

#[test]
fn total_beyond_the_wider_type_is_internal() {
    let max = i32::MAX;
    let store = Store::from_tables(
        vec![user(1, "a@x.org"), user(2, "b@x.org")],
        vec![order(10, 1, None), order(11, 1, None), order(12, 2, None)],
        vec![
            item(100, 10, max, max),
            item(101, 10, max, max),
            item(102, 10, max, max),
            item(103, 11, 1, 1),
            item(104, 12, 1, 1),
        ],
    )
    .unwrap();
    assert_eq!(find_order_by_id(1, 10, &store).err(), Some(ApiError::InternalError));
    assert_eq!(find_order_by_id(1, 11, &store).unwrap().order_total, 1);
    assert_eq!(find_all_orders_for_user(1, &store).err(), Some(ApiError::InternalError));
    assert_eq!(ids(&find_all_orders_for_user(2, &store).unwrap()), vec![12]);
}

#[test]
fn total_that_overflows_on_the_way_but_fits_in_the_end_is_exact() {
    let max = i32::MAX;
    let store = Store::from_tables(
        vec![user(1, "a@x.org")],
        vec![order(10, 1, None)],
        vec![
            item(100, 10, max, max),
            item(101, 10, max, max),
            item(102, 10, max, max),
            item(103, 10, -max, max),
        ],
    )
    .unwrap();
    let square = (max as i64) * (max as i64);
    assert_eq!(find_order_by_id(1, 10, &store).unwrap().order_total, 2 * square);
    assert_eq!(find_all_orders_for_user(1, &store).unwrap()[0].order_total, 2 * square);
}

#[test]
fn list_holds_the_orders_of_the_user_that_have_lines() {
    let store = sample();
    let list = find_all_orders_for_user(1, &store).unwrap();
    let mut found = ids(&list);
    found.sort();
    assert_eq!(found, vec![10, 13]);
    for details in &list {
        assert!(details.items.is_none());
        assert_eq!(details.user_id, 1);
    }
    let first = list.iter().find(|d| d.order_id == 10).unwrap();
    assert_eq!(first.order_total, 1300);
    assert_eq!(first.note.as_deref(), Some("first"));
    assert_eq!(first.order_at, at(1_700_000_010));
    let second = list.iter().find(|d| d.order_id == 13).unwrap();
    assert_eq!(second.order_total, 0);
    let list = find_all_orders_for_user(2, &store).unwrap();
    assert_eq!(ids(&list), vec![11]);
    assert_eq!(list[0].order_total, 78);
    assert!(list[0].items.is_none());
}

#[test]
fn list_of_a_user_without_orders_is_empty() {
    let store = sample();
    assert!(find_all_orders_for_user(3, &store).unwrap().is_empty());
    assert!(find_all_orders_for_user(4, &store).unwrap().is_empty());
    assert!(find_all_orders_for_user(1, &Store::new()).unwrap().is_empty());
}

#[test]
fn list_total_is_the_sum_of_products_for_every_line() {
    let store = Store::from_tables(
        vec![user(1, "a@x.org")],
        vec![order(10, 1, None)],
        vec![item(100, 10, 3, 7), item(101, 10, 5, 11), item(102, 10, 2, 13)],
    )
    .unwrap();
    let list = find_all_orders_for_user(1, &store).unwrap();
    assert_eq!(list.len(), 1);
    assert_eq!(list[0].order_total, 3 * 7 + 5 * 11 + 2 * 13);
    assert_eq!(list[0].order_total, find_order_by_id(1, 10, &store).unwrap().order_total);
}

#[test]
fn new_order_items_keeps_the_lines_in_order() {
    let lines = vec![line("A", 2, 500), line("B", 1, 300), line("A", 2, 500)];
    let rows = new_order_items(77, &lines);
    assert_eq!(rows.len(), 3);
    for (row, given) in rows.iter().zip(lines.iter()) {
        assert_eq!(row.order_id, 77);
        assert_eq!(row.description, given.description);
        assert_eq!(row.qty, given.qty);
        assert_eq!(row.price, given.price);
    }
    assert_ne!(rows[0].item_id, rows[1].item_id);
    assert_ne!(rows[0].item_id, rows[2].item_id);
    assert_ne!(rows[1].item_id, rows[2].item_id);
    assert!(new_order_items(77, &vec![]).is_empty());
}

#[test]
fn insert_new_order_stores_one_row() {
    let mut store = two_users();
    let stored = insert_new_order(10, 2, Some("note".to_string()), &mut store).unwrap();
    assert_eq!(stored.order_id, 10);
    assert_eq!(stored.user_id, 2);
    assert_eq!(stored.note.as_deref(), Some("note"));
    assert_eq!(store.orders().len(), 1);
    assert_eq!(store.orders()[0].order_id, 10);
    assert_eq!(store.orders()[0].user_id, 2);
    assert_eq!(store.orders()[0].note.as_deref(), Some("note"));
    assert_eq!(store.orders()[0].created_at, stored.created_at);
    assert!(store.order_items().is_empty());
}

#[test]
fn insert_new_order_refuses_unknown_user_and_taken_id() {
    let mut store = two_users();
    assert_eq!(insert_new_order(10, 3, None, &mut store).err(), Some(ApiError::InternalError));
    insert_new_order(10, 1, None, &mut store).unwrap();
    assert_eq!(insert_new_order(10, 2, None, &mut store).err(), Some(ApiError::InternalError));
    assert_eq!(store.orders().len(), 1);
}

#[test]
fn insert_new_order_items_stores_the_batch() {
    let mut store = two_users();
    insert_new_order(10, 1, None, &mut store).unwrap();
    let lines = vec![line("A", 2, 500), line("B", 1, 300)];
    assert_eq!(insert_new_order_items(10, &lines, &mut store), Ok(true));
    assert_eq!(store.order_items().len(), 2);
    assert_eq!(store.order_items()[0].description, "A");
    assert_eq!(store.order_items()[1].description, "B");
    assert_eq!(store.order_items()[1].order_id, 10);
    assert_eq!(insert_new_order_items(10, &vec![line("C", 1, 1)], &mut store), Ok(true));
    assert_eq!(find_order_by_id(1, 10, &store).unwrap().order_total, 1301);
}

#[test]
fn insert_new_order_items_needs_the_order() {
    let mut store = two_users();
    let lines = vec![line("A", 2, 500)];
    assert_eq!(insert_new_order_items(10, &lines, &mut store), Err(ApiError::InternalError));
    assert!(store.order_items().is_empty());
    assert_eq!(insert_new_order_items(10, &vec![], &mut store), Ok(true));
}

#[test]
fn create_order_with_items_needs_the_user() {
    let mut store = two_users();
    let lines = vec![line("A", 2, 500)];
    assert_eq!(
        create_order_with_items(3, None, &lines, &mut store).err(),
        Some(ApiError::InternalError)
    );
    assert!(store.orders().is_empty());
    assert!(store.order_items().is_empty());
}

#[test]
fn order_created_without_lines_is_stored_and_not_shown() {
    let mut store = two_users();
    let order = create_order_with_items(1, None, &vec![], &mut store).unwrap();
    assert_eq!(store.orders().len(), 1);
    assert_eq!(find_order_by_id(1, order.order_id, &store).err(), Some(ApiError::NotFound));
    assert!(find_all_orders_for_user(1, &store).unwrap().is_empty());
}

#[test]
fn created_orders_are_listed_for_their_owner_only() {
    let mut store = two_users();
    let a = create_order_with_items(1, None, &vec![line("A", 2, 500)], &mut store).unwrap();
    let b = create_order_with_items(2, None, &vec![line("B", 1, 300)], &mut store).unwrap();
    let c = create_order_with_items(1, None, &vec![line("C", 4, 25)], &mut store).unwrap();
    let mut mine = ids(&find_all_orders_for_user(1, &store).unwrap());
    mine.sort();
    let mut expected = vec![a.order_id, c.order_id];
    expected.sort();
    assert_eq!(mine, expected);
    assert_eq!(ids(&find_all_orders_for_user(2, &store).unwrap()), vec![b.order_id]);
    assert_eq!(find_order_by_id(2, a.order_id, &store).err(), Some(ApiError::NotFound));
    assert_eq!(find_order_by_id(1, b.order_id, &store).err(), Some(ApiError::NotFound));
    assert_eq!(find_order_by_id(1, c.order_id, &store).unwrap().order_total, 100);
}

#[test]
fn create_order_request_scenario() {
    let mut store = two_users();
    let token = generate_jwt(1).unwrap();
    let form = NewOrder {
        note: Some("ring twice".to_string()),
        items: vec![line("A", 2, 500), line("B", 1, 300)],
    };
    let order = create_order(Some(token.as_bytes()), &form, &mut store).unwrap();
    assert_eq!(order.user_id, 1);
    assert_eq!(order.note.as_deref(), Some("ring twice"));
    let details = get_order(Some(token.as_bytes()), order.order_id, &store).unwrap();
    assert_eq!(details.order_total, 1300);
    let lines = details.items.unwrap();
    assert_eq!(lines.len(), 2);
    assert_eq!(lines[0].description, "A");
    assert_eq!(lines[1].description, "B");
    let list = get_order_details_for_user(Some(token.as_bytes()), &store).unwrap();
    assert_eq!(list.len(), 1);
    assert_eq!(list[0].order_id, order.order_id);
    assert_eq!(list[0].order_total, 1300);
    assert!(list[0].items.is_none());
    let other = generate_jwt(2).unwrap();
    assert_eq!(
        get_order(Some(other.as_bytes()), order.order_id, &store).err(),
        Some(ApiError::NotFound)
    );
    assert!(get_order_details_for_user(Some(other.as_bytes()), &store).unwrap().is_empty());
}

#[test]
fn create_order_request_fails_as_authentication_does() {
    let mut store = two_users();
    let form = NewOrder { note: None, items: vec![line("A", 2, 500)] };
    assert_eq!(create_order(None, &form, &mut store).err(), Some(ApiError::Unauthorized));
    assert_eq!(
        create_order(Some(b"a.b.c"), &form, &mut store).err(),
        Some(ApiError::Unauthorized)
    );
    let expired = generate_jwt_at(1, 1000).unwrap();
    assert_eq!(
        create_order(Some(expired.as_bytes()), &form, &mut store).err(),
        Some(ApiError::Unauthorized)
    );
    let stranger = generate_jwt(3).unwrap();
    assert_eq!(
        create_order(Some(stranger.as_bytes()), &form, &mut store).err(),
        Some(ApiError::NotFound)
    );
    assert!(store.orders().is_empty());
    assert!(store.order_items().is_empty());
}

#[test]
fn get_order_request_at_an_instant() {
    let store = sample();
    let token = generate_jwt_at(1, 1000).unwrap();
    let header = Some(token.as_bytes());
    assert_eq!(get_order_at(header, 10, 1000, &store).unwrap().order_total, 1300);
    assert_eq!(get_order_at(header, 10, 1000 + ONE_WEEK, &store).unwrap().order_total, 1300);
    assert_eq!(
        get_order_at(header, 10, 1001 + ONE_WEEK, &store).err(),
        Some(ApiError::Unauthorized)
    );
    assert_eq!(get_order_at(header, 11, 1000, &store).err(), Some(ApiError::NotFound));
    assert_eq!(get_order_at(header, 12, 1000, &store).err(), Some(ApiError::NotFound));
    assert_eq!(get_order_at(None, 10, 1000, &store).err(), Some(ApiError::Unauthorized));
    let stranger = generate_jwt_at(9, 1000).unwrap();
    assert_eq!(
        get_order_at(Some(stranger.as_bytes()), 10, 1000, &store).err(),
        Some(ApiError::NotFound)
    );
    assert_eq!(get_order(None, 10, &store).err(), Some(ApiError::Unauthorized));
    assert_eq!(get_order(header, 10, &store).err(), Some(ApiError::Unauthorized));
}

#[test]
fn list_orders_request_at_an_instant() {
    let store = sample();
    let token = generate_jwt_at(2, 1000).unwrap();
    let header = Some(token.as_bytes());
    let list = get_order_details_for_user_at(header, 1000, &store).unwrap();
    assert_eq!(ids(&list), vec![11]);
    assert_eq!(
        get_order_details_for_user_at(header, 1001 + ONE_WEEK, &store).err(),
        Some(ApiError::Unauthorized)
    );
    assert_eq!(
        get_order_details_for_user_at(None, 1000, &store).err(),
        Some(ApiError::Unauthorized)
    );
    let stranger = generate_jwt_at(9, 1000).unwrap();
    assert_eq!(
        get_order_details_for_user_at(Some(stranger.as_bytes()), 1000, &store).err(),
        Some(ApiError::NotFound)
    );
    assert_eq!(get_order_details_for_user(None, &store).err(), Some(ApiError::Unauthorized));
    let third = generate_jwt_at(3, 1000).unwrap();
    assert!(get_order_details_for_user_at(Some(third.as_bytes()), 1000, &store)
        .unwrap()
        .is_empty());
}

#[test]
fn create_order_with_given_values_is_exact() {
    let mut store = two_users();
    let token = generate_jwt_at(1, 1000).unwrap();
    let header = Some(token.as_bytes());
    let rows = vec![item(100, 10, 2, 500), item(101, 10, 1, 300)];
    let order =
        create_order_with(header, Some("note".to_string()), 1000, 10, at(7), rows, &mut store)
            .unwrap();
    assert_eq!(order.order_id, 10);
    assert_eq!(order.user_id, 1);
    assert_eq!(order.note.as_deref(), Some("note"));
    assert_eq!(order.created_at, at(7));
    assert_eq!(store.orders().len(), 1);
    assert_eq!(store.orders()[0].order_id, 10);
    assert_eq!(store.orders()[0].user_id, 1);
    assert_eq!(store.orders()[0].created_at, at(7));
    let ids: Vec<u128> = store.order_items().iter().map(|i| i.item_id).collect();
    assert_eq!(ids, vec![100, 101]);
    assert_eq!(get_order_at(header, 10, 1000, &store).unwrap().order_total, 1300);
}

#[test]
fn create_order_with_fails_as_authentication_does() {
    let mut store = two_users();
    let token = generate_jwt_at(1, 1000).unwrap();
    let stranger = generate_jwt_at(3, 1000).unwrap();
    let rows = || vec![item(100, 10, 2, 500)];
    assert_eq!(
        create_order_with(None, None, 1000, 10, at(7), rows(), &mut store).err(),
        Some(ApiError::Unauthorized)
    );
    assert_eq!(
        create_order_with(Some(&[0xff]), None, 1000, 10, at(7), rows(), &mut store).err(),
        Some(ApiError::Unauthorized)
    );
    assert_eq!(
        create_order_with(Some(b"a.b.c"), None, 1000, 10, at(7), rows(), &mut store).err(),
        Some(ApiError::Unauthorized)
    );
    assert_eq!(
        create_order_with(
            Some(token.as_bytes()),
            None,
            1001 + ONE_WEEK,
            10,
            at(7),
            rows(),
            &mut store
        )
        .err(),
        Some(ApiError::Unauthorized)
    );
    assert_eq!(
        create_order_with(Some(stranger.as_bytes()), None, 1000, 10, at(7), rows(), &mut store)
            .err(),
        Some(ApiError::NotFound)
    );
    assert!(store.orders().is_empty());
    assert!(store.order_items().is_empty());
}

#[test]
fn create_order_with_rows_that_the_store_refuses_is_internal() {
    let mut store = two_users();
    let token = generate_jwt_at(1, 1000).unwrap();
    let header = Some(token.as_bytes());
    create_order_with(header, None, 1000, 10, at(7), vec![item(100, 10, 1, 1)], &mut store)
        .unwrap();
    // the order id is taken
    assert_eq!(
        create_order_with(header, None, 1000, 10, at(7), vec![item(101, 10, 1, 1)], &mut store)
            .err(),
        Some(ApiError::InternalError)
    );
    // an item id is taken
    assert_eq!(
        create_order_with(header, None, 1000, 11, at(7), vec![item(100, 11, 1, 1)], &mut store)
            .err(),
        Some(ApiError::InternalError)
    );
    // an item id twice
    assert_eq!(
        create_order_with(
            header,
            None,
            1000,
            11,
            at(7),
            vec![item(101, 11, 1, 1), item(101, 11, 1, 1)],
            &mut store
        )
        .err(),
        Some(ApiError::InternalError)
    );
    // a row of an order that is not stored
    assert_eq!(
        create_order_with(header, None, 1000, 11, at(7), vec![item(101, 12, 1, 1)], &mut store)
            .err(),
        Some(ApiError::InternalError)
    );
    assert_eq!(store.orders().len(), 1);
    assert_eq!(store.order_items().len(), 1);
    // a failed authentication comes before what the store says
    assert_eq!(
        create_order_with(None, None, 1000, 10, at(7), vec![item(100, 10, 1, 1)], &mut store)
            .err(),
        Some(ApiError::Unauthorized)
    );
    assert!(create_order_with(header, None, 1000, 11, at(7), vec![], &mut store).is_ok());
}

#[test]
fn create_order_request_with_header_that_is_no_text_is_unauthorized() {
    let mut store = two_users();
    let form = NewOrder { note: None, items: vec![line("A", 2, 500)] };
    let token = generate_jwt(1).unwrap();
    let mut bytes = token.into_bytes();
    bytes.push(b'\n');
    assert_eq!(create_order(Some(&bytes), &form, &mut store).err(), Some(ApiError::Unauthorized));
    assert_eq!(
        create_order(Some(&[0x80]), &form, &mut store).err(),
        Some(ApiError::Unauthorized)
    );
    assert!(store.orders().is_empty());
}

#[test]
fn first_line_of_a_store_is_always_stored() {
    let mut store = two_users();
    insert_new_order(10, 1, None, &mut store).unwrap();
    assert_eq!(insert_new_order_items(10, &vec![line("A", 2, 500)], &mut store), Ok(true));
    assert_eq!(store.order_items().len(), 1);
    let mut other = two_users();
    let first = create_order_with_items(2, None, &vec![line("B", 1, 300)], &mut other);
    assert!(first.is_ok());
}
