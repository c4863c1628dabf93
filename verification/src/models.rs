//! Rows of the three tables, the request bodies, and the views derived on read.
//!
//! Identifiers are the 128-bit values of UUIDs. Timestamps are carried through as they were
//! taken from the clock; nothing in the library looks inside one.

use vstd::prelude::*;

verus! {

/// `chrono::NaiveDateTime`, taken as an opaque value: a timestamp can be copied and compared
/// for being the same value, and nothing else is known of it.
#[verifier::external_type_specification]
#[verifier::external_body]
pub struct ExNaiveDateTime(chrono::NaiveDateTime);

/// The characters of an optional text.
pub open spec fn opt_text(text: Option<String>) -> Option<Seq<char>> {
    match text {
        Some(s) => Some(s@),
        None => None,
    }
}

/// A registered user. Created once at registration and never changed.
#[derive(Debug)]
pub struct User {
    pub user_id: u128,
    pub first_name: String,
    pub last_name: String,
    /// Unique among the users.
    pub email: String,
    /// The credential of the account: the salted one-way hash of its password, never the
    /// password itself.
    pub password: String,
    pub created_at: chrono::NaiveDateTime,
}

/// Mathematical value of a [`User`].
pub struct UserView {
    pub user_id: u128,
    pub first_name: Seq<char>,
    pub last_name: Seq<char>,
    pub email: Seq<char>,
    pub password: Seq<char>,
    pub created_at: chrono::NaiveDateTime,
}

impl View for User {
    type V = UserView;

    open spec fn view(&self) -> UserView {
        UserView {
            user_id: self.user_id,
            first_name: self.first_name@,
            last_name: self.last_name@,
            email: self.email@,
            password: self.password@,
            created_at: self.created_at,
        }
    }
}

impl Clone for User {
    fn clone(&self) -> (r: Self)
        ensures
            r@ == self@,
    {
        User {
            user_id: self.user_id,
            first_name: self.first_name.clone(),
            last_name: self.last_name.clone(),
            email: self.email.clone(),
            password: self.password.clone(),
            created_at: self.created_at,
        }
    }
}

/// Body of a registration request.
#[derive(Debug)]
pub struct NewUser {
    pub first_name: String,
    pub last_name: String,
    pub email: String,
    /// The password as the user typed it. It is hashed before anything is stored.
    pub password: String,
}

impl Clone for NewUser {
    fn clone(&self) -> (r: Self)
        ensures
            r.first_name@ == self.first_name@,
            r.last_name@ == self.last_name@,
            r.email@ == self.email@,
            r.password@ == self.password@,
    {
        NewUser {
            first_name: self.first_name.clone(),
            last_name: self.last_name.clone(),
            email: self.email.clone(),
            password: self.password.clone(),
        }
    }
}

/// Body of a login request.
#[derive(Debug)]
pub struct UserLogin {
    pub email: String,
    /// The password as the user typed it. It is hashed before anything is compared.
    pub password: String,
}

impl Clone for UserLogin {
    fn clone(&self) -> (r: Self)
        ensures
            r.email@ == self.email@,
            r.password@ == self.password@,
    {
        UserLogin { email: self.email.clone(), password: self.password.clone() }
    }
}

/// An order. Created together with its line items and never changed.
#[derive(Debug)]
pub struct Order {
    pub order_id: u128,
    pub user_id: u128,
    pub note: Option<String>,
    pub created_at: chrono::NaiveDateTime,
}

/// Mathematical value of an [`Order`].
pub struct OrderView {
    pub order_id: u128,
    pub user_id: u128,
    pub note: Option<Seq<char>>,
    pub created_at: chrono::NaiveDateTime,
}

impl View for Order {
    type V = OrderView;

    open spec fn view(&self) -> OrderView {
        OrderView {
            order_id: self.order_id,
            user_id: self.user_id,
            note: opt_text(self.note),
            created_at: self.created_at,
        }
    }
}

impl Clone for Order {
    fn clone(&self) -> (r: Self)
        ensures
            r@ == self@,
    {
        Order {
            order_id: self.order_id,
            user_id: self.user_id,
            note: self.note.clone(),
            created_at: self.created_at,
        }
    }
}

/// One priced line of an order. Quantity and price are in whole units; the price is in minor
/// currency units.
#[derive(Debug)]
pub struct OrderItem {
    pub item_id: u128,
    pub order_id: u128,
    pub description: String,
    pub qty: i32,
    pub price: i32,
    pub created_at: chrono::NaiveDateTime,
}

/// Mathematical value of an [`OrderItem`].
pub struct OrderItemView {
    pub item_id: u128,
    pub order_id: u128,
    pub description: Seq<char>,
    pub qty: i32,
    pub price: i32,
    pub created_at: chrono::NaiveDateTime,
}

impl View for OrderItem {
    type V = OrderItemView;

    open spec fn view(&self) -> OrderItemView {
        OrderItemView {
            item_id: self.item_id,
            order_id: self.order_id,
            description: self.description@,
            qty: self.qty,
            price: self.price,
            created_at: self.created_at,
        }
    }
}

impl Clone for OrderItem {
    fn clone(&self) -> (r: Self)
        ensures
            r@ == self@,
    {
        OrderItem {
            item_id: self.item_id,
            order_id: self.order_id,
            description: self.description.clone(),
            qty: self.qty,
            price: self.price,
            created_at: self.created_at,
        }
    }
}

/// One line of an order as a client sends it.
#[derive(Debug)]
pub struct NewOrderItem {
    pub description: String,
    pub qty: i32,
    pub price: i32,
}

/// Mathematical value of a [`NewOrderItem`].
pub struct NewOrderItemView {
    pub description: Seq<char>,
    pub qty: i32,
    pub price: i32,
}

impl View for NewOrderItem {
    type V = NewOrderItemView;

    open spec fn view(&self) -> NewOrderItemView {
        NewOrderItemView { description: self.description@, qty: self.qty, price: self.price }
    }
}

impl Clone for NewOrderItem {
    fn clone(&self) -> (r: Self)
        ensures
            r@ == self@,
    {
        NewOrderItem { description: self.description.clone(), qty: self.qty, price: self.price }
    }
}

/// Body of an order creation request.
#[derive(Debug)]
pub struct NewOrder {
    pub note: Option<String>,
    pub items: Vec<NewOrderItem>,
}

impl Clone for NewOrder {
    fn clone(&self) -> (r: Self)
        ensures
            opt_text(r.note) == opt_text(self.note),
            new_items_view(r.items@) == new_items_view(self.items@),
    {
        let mut items: Vec<NewOrderItem> = Vec::new();
        let mut i: usize = 0;
        while i < self.items.len()
            invariant
                i <= self.items.len(),
                items.len() == i,
                forall|j: int| 0 <= j < i ==> items[j]@ == self.items[j]@,
            decreases self.items.len() - i,
        {
            items.push(self.items[i].clone());
            i += 1;
        }
        assert(new_items_view(items@) =~= new_items_view(self.items@));
        NewOrder { note: self.note.clone(), items }
    }
}

/// A line item as shown to the owner of the order: an [`OrderItem`] without its keys of
/// ownership.
#[derive(Debug)]
pub struct OrderItemDetails {
    pub item_id: u128,
    pub description: String,
    pub qty: i32,
    pub price: i32,
}

/// Mathematical value of an [`OrderItemDetails`].
pub struct OrderItemDetailsView {
    pub item_id: u128,
    pub description: Seq<char>,
    pub qty: i32,
    pub price: i32,
}

impl View for OrderItemDetails {
    type V = OrderItemDetailsView;

    open spec fn view(&self) -> OrderItemDetailsView {
        OrderItemDetailsView {
            item_id: self.item_id,
            description: self.description@,
            qty: self.qty,
            price: self.price,
        }
    }
}

impl Clone for OrderItemDetails {
    fn clone(&self) -> (r: Self)
        ensures
            r@ == self@,
    {
        OrderItemDetails {
            item_id: self.item_id,
            description: self.description.clone(),
            qty: self.qty,
            price: self.price,
        }
    }
}

/// An order as shown to its owner. Built on read and never stored.
#[derive(Debug)]
pub struct OrderDetails {
    pub order_id: u128,
    pub user_id: u128,
    pub note: Option<String>,
    pub order_total: i64,
    pub order_at: chrono::NaiveDateTime,
    /// The lines of the order, present only where a single order was asked for.
    pub items: Option<Vec<OrderItemDetails>>,
}

/// Mathematical value of an [`OrderDetails`].
pub struct OrderDetailsView {
    pub order_id: u128,
    pub user_id: u128,
    pub note: Option<Seq<char>>,
    pub order_total: int,
    pub order_at: chrono::NaiveDateTime,
    pub items: Option<Seq<OrderItemDetailsView>>,
}

/// The values of a sequence of shown line items.
pub open spec fn item_details_view(items: Seq<OrderItemDetails>) -> Seq<OrderItemDetailsView> {
    items.map_values(|d: OrderItemDetails| d@)
}

impl View for OrderDetails {
    type V = OrderDetailsView;

    open spec fn view(&self) -> OrderDetailsView {
        OrderDetailsView {
            order_id: self.order_id,
            user_id: self.user_id,
            note: opt_text(self.note),
            order_total: self.order_total as int,
            order_at: self.order_at,
            items: match self.items {
                Some(v) => Some(item_details_view(v@)),
                None => None,
            },
        }
    }
}

impl Clone for OrderDetails {
    fn clone(&self) -> (r: Self)
        ensures
            r@ == self@,
    {
        let items = match &self.items {
            Some(lines) => {
                let mut copy: Vec<OrderItemDetails> = Vec::new();
                let mut i: usize = 0;
                while i < lines.len()
                    invariant
                        i <= lines.len(),
                        copy.len() == i,
                        forall|j: int| 0 <= j < i ==> copy[j]@ == lines[j]@,
                    decreases lines.len() - i,
                {
                    copy.push(lines[i].clone());
                    i += 1;
                }
                assert(item_details_view(copy@) =~= item_details_view(lines@));
                Some(copy)
            },
            None => None,
        };
        OrderDetails {
            order_id: self.order_id,
            user_id: self.user_id,
            note: self.note.clone(),
            order_total: self.order_total,
            order_at: self.order_at,
            items,
        }
    }
}

/// The values of a sequence of user rows.
pub open spec fn users_view(rows: Seq<User>) -> Seq<UserView> {
    rows.map_values(|u: User| u@)
}

/// The values of a sequence of order rows.
pub open spec fn orders_view(rows: Seq<Order>) -> Seq<OrderView> {
    rows.map_values(|o: Order| o@)
}

/// The values of a sequence of line item rows.
pub open spec fn order_items_view(rows: Seq<OrderItem>) -> Seq<OrderItemView> {
    rows.map_values(|i: OrderItem| i@)
}

/// The values of a sequence of requested lines.
pub open spec fn new_items_view(rows: Seq<NewOrderItem>) -> Seq<NewOrderItemView> {
    rows.map_values(|i: NewOrderItem| i@)
}

/// The values of a sequence of shown orders.
pub open spec fn details_view(rows: Seq<OrderDetails>) -> Seq<OrderDetailsView> {
    rows.map_values(|d: OrderDetails| d@)
}

/// The value of an answer that is a text.
pub open spec fn text_answer<E>(answer: Result<String, E>) -> Result<Seq<char>, E> {
    match answer {
        Ok(text) => Ok(text@),
        Err(e) => Err(e),
    }
}

/// The value of an answer that is an order row.
pub open spec fn order_answer<E>(answer: Result<Order, E>) -> Result<OrderView, E> {
    match answer {
        Ok(order) => Ok(order@),
        Err(e) => Err(e),
    }
}

/// The value of the answer to a request for one order.
pub open spec fn details_answer<E>(answer: Result<OrderDetails, E>) -> Result<OrderDetailsView, E> {
    match answer {
        Ok(details) => Ok(details@),
        Err(e) => Err(e),
    }
}

/// The value of the answer to a request for a list of orders.
pub open spec fn listing_answer<E>(answer: Result<Vec<OrderDetails>, E>) -> Result<
    Seq<OrderDetailsView>,
    E,
> {
    match answer {
        Ok(list) => Ok(details_view(list@)),
        Err(e) => Err(e),
    }
}

} // verus!
