//! The relational state that the service works on: three tables and their constraints.
//!
//! A [`Store`] holds the rows that an operation reads and the rows that it adds. Its type
//! invariant is what the schema promises: primary keys and emails are unique, every order
//! belongs to a stored user and every line item to a stored order. Rows are only ever added.

use vstd::prelude::*;
use crate::errors::ApiError;
use crate::models::{
    Order, OrderItem, OrderItemView, OrderView, User, UserView, order_items_view, orders_view,
    users_view,
};

verus! {

/// Mathematical value of a [`Store`]: the rows of each table in the order of their insertion.
pub struct StoreView {
    pub users: Seq<UserView>,
    pub orders: Seq<OrderView>,
    pub order_items: Seq<OrderItemView>,
}

/// No two users share an id.
pub open spec fn distinct_user_ids(users: Seq<UserView>) -> bool {
    forall|i: int, j: int|
        0 <= i < j < users.len() ==> (#[trigger] users[i]).user_id != (#[trigger] users[j]).user_id
}

/// No two users share an email.
pub open spec fn distinct_emails(users: Seq<UserView>) -> bool {
    forall|i: int, j: int|
        0 <= i < j < users.len() ==> (#[trigger] users[i]).email != (#[trigger] users[j]).email
}

/// No two orders share an id.
pub open spec fn distinct_order_ids(orders: Seq<OrderView>) -> bool {
    forall|i: int, j: int|
        0 <= i < j < orders.len() ==> (#[trigger] orders[i]).order_id != (
        #[trigger] orders[j]).order_id
}

/// No two line items share an id.
pub open spec fn distinct_item_ids(items: Seq<OrderItemView>) -> bool {
    forall|i: int, j: int|
        0 <= i < j < items.len() ==> (#[trigger] items[i]).item_id != (#[trigger] items[j]).item_id
}

/// Some user among `users` has the id `uid`.
pub open spec fn contains_user_id(users: Seq<UserView>, uid: u128) -> bool {
    exists|i: int| 0 <= i < users.len() && (#[trigger] users[i]).user_id == uid
}

/// Some user among `users` has the email `email`.
pub open spec fn contains_email(users: Seq<UserView>, email: Seq<char>) -> bool {
    exists|i: int| 0 <= i < users.len() && (#[trigger] users[i]).email == email
}

/// Some order among `orders` has the id `oid`.
pub open spec fn contains_order_id(orders: Seq<OrderView>, oid: u128) -> bool {
    exists|i: int| 0 <= i < orders.len() && (#[trigger] orders[i]).order_id == oid
}

/// Some line item among `items` has the id `item_id`.
pub open spec fn contains_item_id(items: Seq<OrderItemView>, item_id: u128) -> bool {
    exists|i: int| 0 <= i < items.len() && (#[trigger] items[i]).item_id == item_id
}

/// Every order among `orders` belongs to a user among `users`.
pub open spec fn all_owned(users: Seq<UserView>, orders: Seq<OrderView>) -> bool {
    forall|i: int| 0 <= i < orders.len() ==> contains_user_id(users, (#[trigger] orders[i]).user_id)
}

/// Every line among `items` belongs to an order among `orders`, or to the order `pending`.
pub open spec fn all_placed(
    orders: Seq<OrderView>,
    pending: Option<u128>,
    items: Seq<OrderItemView>,
) -> bool {
    forall|i: int|
        0 <= i < items.len() ==> contains_order_id(orders, (#[trigger] items[i]).order_id)
            || pending == Some(items[i].order_id)
}

/// No line among `batch` has an id that a line among `existing` has.
pub open spec fn all_fresh(existing: Seq<OrderItemView>, batch: Seq<OrderItemView>) -> bool {
    forall|i: int|
        0 <= i < batch.len() ==> !contains_item_id(existing, (#[trigger] batch[i]).item_id)
}

impl StoreView {
    /// The store without any row.
    pub open spec fn empty() -> StoreView {
        StoreView { users: Seq::empty(), orders: Seq::empty(), order_items: Seq::empty() }
    }

    /// A user with the id `uid` is stored.
    pub open spec fn has_user(self, uid: u128) -> bool {
        contains_user_id(self.users, uid)
    }

    /// A user with the email `email` is stored.
    pub open spec fn has_email(self, email: Seq<char>) -> bool {
        contains_email(self.users, email)
    }

    /// An order with the id `oid` is stored.
    pub open spec fn has_order(self, oid: u128) -> bool {
        contains_order_id(self.orders, oid)
    }

    /// The constraints of the schema: unique keys, unique emails, and no dangling reference.
    pub open spec fn wf(self) -> bool {
        &&& distinct_user_ids(self.users)
        &&& distinct_emails(self.users)
        &&& distinct_order_ids(self.orders)
        &&& distinct_item_ids(self.order_items)
        &&& all_owned(self.users, self.orders)
        &&& all_placed(self.orders, None, self.order_items)
    }

    /// The store after `user` was added.
    pub open spec fn with_user(self, user: UserView) -> StoreView {
        StoreView { users: self.users.push(user), ..self }
    }

    /// The store after `order` was added.
    pub open spec fn with_order(self, order: OrderView) -> StoreView {
        StoreView { orders: self.orders.push(order), ..self }
    }

    /// The store after the batch `items` was added.
    pub open spec fn with_order_items(self, items: Seq<OrderItemView>) -> StoreView {
        StoreView { order_items: self.order_items + items, ..self }
    }

    /// `user` can be added: neither its id nor its email is taken.
    pub open spec fn admits_user(self, user: UserView) -> bool {
        !self.has_user(user.user_id) && !self.has_email(user.email)
    }

    /// `order` can be added: its id is new and its owner is stored.
    pub open spec fn admits_order(self, order: OrderView) -> bool {
        !self.has_order(order.order_id) && self.has_user(order.user_id)
    }

    /// The batch `items` can be added: the ids are new and distinct, and every line belongs
    /// to a stored order.
    pub open spec fn admits_order_items(self, items: Seq<OrderItemView>) -> bool {
        &&& distinct_item_ids(items)
        &&& all_fresh(self.order_items, items)
        &&& all_placed(self.orders, None, items)
    }

    /// `order` can be added together with the batch `items`: the order can be added, and the
    /// batch can be added once the order is there.
    pub open spec fn admits_order_with_items(
        self,
        order: OrderView,
        items: Seq<OrderItemView>,
    ) -> bool {
        self.admits_order(order) && self.with_order(order).admits_order_items(items)
    }
}

/// Adding a user that the store admits keeps the constraints.
pub proof fn lemma_with_user_wf(store: StoreView, user: UserView)
    requires
        store.wf(),
        store.admits_user(user),
    ensures
        store.with_user(user).wf(),
{
    let after = store.with_user(user);
    assert forall|i: int| 0 <= i < after.orders.len() implies contains_user_id(
        after.users,
        (#[trigger] after.orders[i]).user_id,
    ) by {
        let k = choose|k: int|
            0 <= k < store.users.len() && (#[trigger] store.users[k]).user_id
                == store.orders[i].user_id;
        assert(after.users[k].user_id == after.orders[i].user_id);
    }
}

/// Adding an order that the store admits keeps the constraints.
pub proof fn lemma_with_order_wf(store: StoreView, order: OrderView)
    requires
        store.wf(),
        store.admits_order(order),
    ensures
        store.with_order(order).wf(),
{
    let after = store.with_order(order);
    assert forall|i: int| 0 <= i < after.order_items.len() implies contains_order_id(
        after.orders,
        (#[trigger] after.order_items[i]).order_id,
    ) by {
        let k = choose|k: int|
            0 <= k < store.orders.len() && (#[trigger] store.orders[k]).order_id
                == store.order_items[i].order_id;
        assert(after.orders[k].order_id == after.order_items[i].order_id);
    }
}

/// Adding a batch of lines that the store admits keeps the constraints.
pub proof fn lemma_with_order_items_wf(store: StoreView, items: Seq<OrderItemView>)
    requires
        store.wf(),
        store.admits_order_items(items),
    ensures
        store.with_order_items(items).wf(),
{
    let after = store.with_order_items(items);
    let old_len = store.order_items.len() as int;
    assert forall|i: int, j: int| 0 <= i < j < after.order_items.len() implies (
    #[trigger] after.order_items[i]).item_id != (#[trigger] after.order_items[j]).item_id by {
        if j < old_len {
            assert(after.order_items[i] == store.order_items[i]);
            assert(after.order_items[j] == store.order_items[j]);
        } else if i < old_len {
            assert(after.order_items[i] == store.order_items[i]);
            assert(after.order_items[j] == items[j - old_len]);
        } else {
            assert(after.order_items[i] == items[i - old_len]);
            assert(after.order_items[j] == items[j - old_len]);
        }
    }
    assert forall|i: int| 0 <= i < after.order_items.len() implies contains_order_id(
        after.orders,
        (#[trigger] after.order_items[i]).order_id,
    ) by {
        if i < old_len {
            assert(after.order_items[i] == store.order_items[i]);
        } else {
            assert(after.order_items[i] == items[i - old_len]);
        }
    }
}

/// A line belongs to an order among `orders` with `order` added exactly if it belongs to
/// one among `orders` or to `order` itself.
proof fn lemma_placed_with_pending(
    orders: Seq<OrderView>,
    order: OrderView,
    items: Seq<OrderItemView>,
)
    ensures
        all_placed(orders.push(order), None, items) == all_placed(
            orders,
            Some(order.order_id),
            items,
        ),
{
    let after = orders.push(order);
    if all_placed(orders, Some(order.order_id), items) {
        assert forall|i: int| 0 <= i < items.len() implies contains_order_id(
            after,
            (#[trigger] items[i]).order_id,
        ) by {
            if contains_order_id(orders, items[i].order_id) {
                let k = choose|k: int|
                    0 <= k < orders.len() && (#[trigger] orders[k]).order_id == items[i].order_id;
                assert(after[k].order_id == items[i].order_id);
            } else {
                assert(after[orders.len() as int].order_id == items[i].order_id);
            }
        }
    }
    if all_placed(after, None, items) {
        assert forall|i: int| 0 <= i < items.len() implies contains_order_id(
            orders,
            (#[trigger] items[i]).order_id,
        ) || Some(order.order_id) == Some(items[i].order_id) by {
            let k = choose|k: int|
                0 <= k < after.len() && (#[trigger] after[k]).order_id == items[i].order_id;
            if k < orders.len() {
                assert(orders[k].order_id == items[i].order_id);
            }
        }
    }
}

/// The rows that an operation works on.
pub struct Store {
    users: Vec<User>,
    orders: Vec<Order>,
    order_items: Vec<OrderItem>,
}

impl View for Store {
    type V = StoreView;

    closed spec fn view(&self) -> StoreView {
        StoreView {
            users: users_view(self.users@),
            orders: orders_view(self.orders@),
            order_items: order_items_view(self.order_items@),
        }
    }
}

/// Position of the user with the id `uid`, if there is one.
pub(crate) fn position_of_user(users: &Vec<User>, uid: u128) -> (r: Option<usize>)
    ensures
        match r {
            Some(i) => i < users.len() && users[i as int].user_id == uid,
            None => !contains_user_id(users_view(users@), uid),
        },
        r is Some <==> contains_user_id(users_view(users@), uid),
{
    let mut i: usize = 0;
    while i < users.len()
        invariant
            i <= users.len(),
            forall|j: int| 0 <= j < i ==> users[j].user_id != uid,
        decreases users.len() - i,
    {
        if users[i].user_id == uid {
            assert(users_view(users@)[i as int].user_id == uid);
            return Some(i);
        }
        i += 1;
    }
    None
}

/// Position of the user with the email `email`, if there is one.
pub(crate) fn position_of_email(users: &Vec<User>, email: &String) -> (r: Option<usize>)
    ensures
        match r {
            Some(i) => i < users.len() && users[i as int].email@ == email@,
            None => !contains_email(users_view(users@), email@),
        },
        r is Some <==> contains_email(users_view(users@), email@),
{
    let mut i: usize = 0;
    while i < users.len()
        invariant
            i <= users.len(),
            forall|j: int| 0 <= j < i ==> users[j].email@ != email@,
        decreases users.len() - i,
    {
        if users[i].email == *email {
            assert(users_view(users@)[i as int].email == email@);
            return Some(i);
        }
        i += 1;
    }
    None
}

/// Position of the order with the id `oid`, if there is one.
pub(crate) fn position_of_order(orders: &Vec<Order>, oid: u128) -> (r: Option<usize>)
    ensures
        match r {
            Some(i) => i < orders.len() && orders[i as int].order_id == oid,
            None => !contains_order_id(orders_view(orders@), oid),
        },
        r is Some <==> contains_order_id(orders_view(orders@), oid),
{
    let mut i: usize = 0;
    while i < orders.len()
        invariant
            i <= orders.len(),
            forall|j: int| 0 <= j < i ==> orders[j].order_id != oid,
        decreases orders.len() - i,
    {
        if orders[i].order_id == oid {
            assert(orders_view(orders@)[i as int].order_id == oid);
            return Some(i);
        }
        i += 1;
    }
    None
}

/// Position of the line with the id `item_id`, if there is one.
pub(crate) fn position_of_item(items: &Vec<OrderItem>, item_id: u128) -> (r: Option<usize>)
    ensures
        match r {
            Some(i) => i < items.len() && items[i as int].item_id == item_id,
            None => !contains_item_id(order_items_view(items@), item_id),
        },
        r is Some <==> contains_item_id(order_items_view(items@), item_id),
{
    let mut i: usize = 0;
    while i < items.len()
        invariant
            i <= items.len(),
            forall|j: int| 0 <= j < i ==> items[j].item_id != item_id,
        decreases items.len() - i,
    {
        if items[i].item_id == item_id {
            assert(order_items_view(items@)[i as int].item_id == item_id);
            return Some(i);
        }
        i += 1;
    }
    None
}

/// Whether no two of `users` share an id or an email.
fn users_distinct(users: &Vec<User>) -> (b: bool)
    ensures
        b == (distinct_user_ids(users_view(users@)) && distinct_emails(users_view(users@))),
{
    let ghost rows = users_view(users@);
    let mut j: usize = 0;
    while j < users.len()
        invariant
            j <= users.len(),
            rows == users_view(users@),
            forall|a: int, b: int|
                0 <= a < b < j ==> (#[trigger] rows[a]).user_id != (#[trigger] rows[b]).user_id,
            forall|a: int, b: int|
                0 <= a < b < j ==> (#[trigger] rows[a]).email != (#[trigger] rows[b]).email,
        decreases users.len() - j,
    {
        let mut i: usize = 0;
        while i < j
            invariant
                i <= j < users.len(),
                rows == users_view(users@),
                forall|a: int| 0 <= a < i ==> (#[trigger] rows[a]).user_id != rows[j as int].user_id,
                forall|a: int| 0 <= a < i ==> (#[trigger] rows[a]).email != rows[j as int].email,
            decreases j - i,
        {
            if users[i].user_id == users[j].user_id || users[i].email == users[j].email {
                assert(rows[i as int].user_id == rows[j as int].user_id || rows[i as int].email
                    == rows[j as int].email);
                return false;
            }
            i += 1;
        }
        j += 1;
    }
    true
}

/// Whether no two of `orders` share an id.
fn orders_distinct(orders: &Vec<Order>) -> (b: bool)
    ensures
        b == distinct_order_ids(orders_view(orders@)),
{
    let ghost rows = orders_view(orders@);
    let mut j: usize = 0;
    while j < orders.len()
        invariant
            j <= orders.len(),
            rows == orders_view(orders@),
            forall|a: int, b: int|
                0 <= a < b < j ==> (#[trigger] rows[a]).order_id != (#[trigger] rows[b]).order_id,
        decreases orders.len() - j,
    {
        let mut i: usize = 0;
        while i < j
            invariant
                i <= j < orders.len(),
                rows == orders_view(orders@),
                forall|a: int|
                    0 <= a < i ==> (#[trigger] rows[a]).order_id != rows[j as int].order_id,
            decreases j - i,
        {
            if orders[i].order_id == orders[j].order_id {
                assert(rows[i as int].order_id == rows[j as int].order_id);
                return false;
            }
            i += 1;
        }
        j += 1;
    }
    true
}

/// Whether no two of `items` share an id.
fn items_distinct(items: &Vec<OrderItem>) -> (b: bool)
    ensures
        b == distinct_item_ids(order_items_view(items@)),
{
    let ghost rows = order_items_view(items@);
    let mut j: usize = 0;
    while j < items.len()
        invariant
            j <= items.len(),
            rows == order_items_view(items@),
            forall|a: int, b: int|
                0 <= a < b < j ==> (#[trigger] rows[a]).item_id != (#[trigger] rows[b]).item_id,
        decreases items.len() - j,
    {
        let mut i: usize = 0;
        while i < j
            invariant
                i <= j < items.len(),
                rows == order_items_view(items@),
                forall|a: int| 0 <= a < i ==> (#[trigger] rows[a]).item_id != rows[j as int].item_id,
            decreases j - i,
        {
            if items[i].item_id == items[j].item_id {
                assert(rows[i as int].item_id == rows[j as int].item_id);
                return false;
            }
            i += 1;
        }
        j += 1;
    }
    true
}

/// Whether every order of `orders` belongs to a user of `users`.
fn orders_owned(users: &Vec<User>, orders: &Vec<Order>) -> (b: bool)
    ensures
        b == all_owned(users_view(users@), orders_view(orders@)),
{
    let ghost rows = orders_view(orders@);
    let mut i: usize = 0;
    while i < orders.len()
        invariant
            i <= orders.len(),
            rows == orders_view(orders@),
            forall|a: int|
                0 <= a < i ==> contains_user_id(users_view(users@), (#[trigger] rows[a]).user_id),
        decreases orders.len() - i,
    {
        if position_of_user(users, orders[i].user_id).is_none() {
            assert(!contains_user_id(users_view(users@), rows[i as int].user_id));
            return false;
        }
        i += 1;
    }
    true
}

/// Whether every line of `items` belongs to an order of `orders` or to the order `pending`.
fn items_placed(orders: &Vec<Order>, pending: Option<u128>, items: &Vec<OrderItem>) -> (b: bool)
    ensures
        b == all_placed(orders_view(orders@), pending, order_items_view(items@)),
{
    let ghost rows = order_items_view(items@);
    let mut i: usize = 0;
    while i < items.len()
        invariant
            i <= items.len(),
            rows == order_items_view(items@),
            forall|a: int|
                0 <= a < i ==> contains_order_id(orders_view(orders@), (#[trigger] rows[a]).order_id)
                    || pending == Some(rows[a].order_id),
        decreases items.len() - i,
    {
        let oid = items[i].order_id;
        let is_pending = match pending {
            Some(p) => p == oid,
            None => false,
        };
        if !is_pending && position_of_order(orders, oid).is_none() {
            assert(!contains_order_id(orders_view(orders@), rows[i as int].order_id));
            assert(pending != Some(rows[i as int].order_id));
            return false;
        }
        i += 1;
    }
    true
}

/// Whether no line of `batch` has an id that a line of `existing` has.
fn items_fresh(existing: &Vec<OrderItem>, batch: &Vec<OrderItem>) -> (b: bool)
    ensures
        b == all_fresh(order_items_view(existing@), order_items_view(batch@)),
{
    let ghost rows = order_items_view(batch@);
    let mut i: usize = 0;
    while i < batch.len()
        invariant
            i <= batch.len(),
            rows == order_items_view(batch@),
            forall|a: int|
                0 <= a < i ==> !contains_item_id(
                    order_items_view(existing@),
                    (#[trigger] rows[a]).item_id,
                ),
        decreases batch.len() - i,
    {
        if position_of_item(existing, batch[i].item_id).is_some() {
            assert(contains_item_id(order_items_view(existing@), rows[i as int].item_id));
            return false;
        }
        i += 1;
    }
    true
}

impl Store {
    /// The constraints of the schema hold of every store.
    #[verifier::type_invariant]
    pub open spec fn inv(&self) -> bool {
        self@.wf()
    }

    /// A store without any row.
    pub fn new() -> (store: Store)
        ensures
            store@ == StoreView::empty(),
    {
        let store = Store { users: Vec::new(), orders: Vec::new(), order_items: Vec::new() };
        assert(store@.users =~= Seq::empty());
        assert(store@.orders =~= Seq::empty());
        assert(store@.order_items =~= Seq::empty());
        store
    }

    /// The rows of the table of users.
    pub fn users(&self) -> (rows: &Vec<User>)
        ensures
            users_view(rows@) == self@.users,
            self@.wf(),
    {
        proof {
            use_type_invariant(self);
        }
        &self.users
    }

    /// The rows of the table of orders.
    pub fn orders(&self) -> (rows: &Vec<Order>)
        ensures
            orders_view(rows@) == self@.orders,
            self@.wf(),
    {
        proof {
            use_type_invariant(self);
        }
        &self.orders
    }

    /// The rows of the table of line items.
    pub fn order_items(&self) -> (rows: &Vec<OrderItem>)
        ensures
            order_items_view(rows@) == self@.order_items,
            self@.wf(),
    {
        proof {
            use_type_invariant(self);
        }
        &self.order_items
    }

    /// Adds `user`, unless its id or its email is taken; the store is then left as it was.
    pub fn add_user(&mut self, user: User) -> (r: Result<(), ApiError>)
        ensures
            r is Ok <==> old(self)@.admits_user(user@),
            r matches Err(e) ==> e == ApiError::InternalError && final(self)@ == old(self)@,
            r is Ok ==> final(self)@ == old(self)@.with_user(user@),
    {
        proof {
            use_type_invariant(&*self);
        }
        if position_of_user(&self.users, user.user_id).is_some() {
            return Err(ApiError::InternalError);
        }
        if position_of_email(&self.users, &user.email).is_some() {
            return Err(ApiError::InternalError);
        }
        proof {
            lemma_with_user_wf(self@, user@);
            assert(users_view(self.users@.push(user)) =~= self@.users.push(user@));
        }
        let mut taken = Store::new();
        core::mem::swap(self, &mut taken);
        let Store { users: mut users, orders, order_items } = taken;
        users.push(user);
        *self = Store { users, orders, order_items };
        Ok(())
    }

    /// Adds `order`, unless its id is taken or its owner is not stored; the store is then
    /// left as it was.
    pub fn add_order(&mut self, order: Order) -> (r: Result<(), ApiError>)
        ensures
            r is Ok <==> old(self)@.admits_order(order@),
            r matches Err(e) ==> e == ApiError::InternalError && final(self)@ == old(self)@,
            r is Ok ==> final(self)@ == old(self)@.with_order(order@),
    {
        proof {
            use_type_invariant(&*self);
        }
        if position_of_order(&self.orders, order.order_id).is_some() {
            return Err(ApiError::InternalError);
        }
        if position_of_user(&self.users, order.user_id).is_none() {
            return Err(ApiError::InternalError);
        }
        proof {
            lemma_with_order_wf(self@, order@);
            assert(orders_view(self.orders@.push(order)) =~= self@.orders.push(order@));
        }
        let mut taken = Store::new();
        core::mem::swap(self, &mut taken);
        let Store { users, orders: mut orders, order_items } = taken;
        orders.push(order);
        *self = Store { users, orders, order_items };
        Ok(())
    }

    /// Adds the batch `items` as a whole, unless an id is taken or occurs twice, or a line
    /// belongs to no stored order; the store is then left as it was.
    pub fn add_order_items(&mut self, items: Vec<OrderItem>) -> (r: Result<(), ApiError>)
        ensures
            r is Ok <==> old(self)@.admits_order_items(order_items_view(items@)),
            r matches Err(e) ==> e == ApiError::InternalError && final(self)@ == old(self)@,
            r is Ok ==> final(self)@ == old(self)@.with_order_items(order_items_view(items@)),
    {
        proof {
            use_type_invariant(&*self);
        }
        if !items_distinct(&items) || !items_fresh(&self.order_items, &items) || !items_placed(
            &self.orders,
            None,
            &items,
        ) {
            return Err(ApiError::InternalError);
        }
        proof {
            lemma_with_order_items_wf(self@, order_items_view(items@));
            assert(order_items_view(self.order_items@ + items@) =~= self@.order_items
                + order_items_view(items@));
        }
        let mut batch = items;
        let mut taken = Store::new();
        core::mem::swap(self, &mut taken);
        let Store { users, orders, order_items: mut order_items } = taken;
        order_items.append(&mut batch);
        *self = Store { users, orders, order_items };
        Ok(())
    }

    /// Adds `order` and the batch `items` as one unit: both are added, or the store is left
    /// as it was. They are added exactly if the order can be added and, with it in place, the
    /// batch can.
    pub fn add_order_with_items(&mut self, order: Order, items: Vec<OrderItem>) -> (r: Result<
        (),
        ApiError,
    >)
        ensures
            r is Ok <==> old(self)@.admits_order_with_items(order@, order_items_view(items@)),
            r matches Err(e) ==> e == ApiError::InternalError && final(self)@ == old(self)@,
            r is Ok ==> final(self)@ == old(self)@.with_order(order@).with_order_items(
                order_items_view(items@),
            ),
    {
        proof {
            use_type_invariant(&*self);
            lemma_placed_with_pending(self@.orders, order@, order_items_view(items@));
        }
        if position_of_order(&self.orders, order.order_id).is_some() {
            return Err(ApiError::InternalError);
        }
        if position_of_user(&self.users, order.user_id).is_none() {
            return Err(ApiError::InternalError);
        }
        if !items_distinct(&items) || !items_fresh(&self.order_items, &items) || !items_placed(
            &self.orders,
            Some(order.order_id),
            &items,
        ) {
            return Err(ApiError::InternalError);
        }
        proof {
            lemma_with_order_wf(self@, order@);
            lemma_with_order_items_wf(self@.with_order(order@), order_items_view(items@));
            assert(orders_view(self.orders@.push(order)) =~= self@.orders.push(order@));
            assert(order_items_view(self.order_items@ + items@) =~= self@.order_items
                + order_items_view(items@));
        }
        let mut batch = items;
        let mut taken = Store::new();
        core::mem::swap(self, &mut taken);
        let Store { users, orders: mut orders, order_items: mut order_items } = taken;
        orders.push(order);
        order_items.append(&mut batch);
        *self = Store { users, orders, order_items };
        Ok(())
    }

    /// A store of the given rows, if they meet the constraints of the schema.
    pub fn from_tables(users: Vec<User>, orders: Vec<Order>, order_items: Vec<OrderItem>) -> (r:
        Option<Store>)
        ensures
            r is Some <==> (StoreView {
                users: users_view(users@),
                orders: orders_view(orders@),
                order_items: order_items_view(order_items@),
            }).wf(),
            r matches Some(store) ==> store@ == (StoreView {
                users: users_view(users@),
                orders: orders_view(orders@),
                order_items: order_items_view(order_items@),
            }),
    {
        if users_distinct(&users) && orders_distinct(&orders) && items_distinct(&order_items)
            && orders_owned(&users, &orders) && items_placed(&orders, None, &order_items) {
            Some(Store { users, orders, order_items })
        } else {
            None
        }
    }
}

} // verus!
