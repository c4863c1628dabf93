//! The core of a small order service: users register and log in, place orders with priced
//! lines, and read their own orders back.
//!
//! * [`store`] holds the three tables with the constraints of their schema.
//! * [`token_utils`] issues and checks the signed, time-bound tokens that identify a user.
//! * [`credentials`] derives what is stored and compared in the place of a password.
//! * [`user_actions`] looks users up, stores them, and authenticates a request from its
//!   token header.
//! * [`order_actions`] stores an order with its lines as one unit and shows orders to their
//!   owner, with totals summed from the lines; [`order_laws`] states what always holds of
//!   that.
//! * [`user_handlers`] and [`order_handlers`] are the operations of the HTTP surface, from
//!   request values to an answer or a failure kind of [`errors`].
//!
//! Authentication, the reading operations, login and the issue of tokens depend on the
//! clock. Each also comes in a form that is given the instant instead (`*_at`), and
//! registration and the creation of an order in one that is given the drawn values as well
//! (`register_user_with`, `create_order_with`): those are functions of their arguments
//! alone.

pub mod credentials;
pub mod errors;
pub mod models;
pub mod order_actions;
pub mod order_handlers;
pub mod order_laws;
mod runtime;
pub mod store;
pub mod token_utils;
pub mod user_actions;
pub mod user_handlers;
