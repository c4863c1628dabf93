//! Failure kinds of the service and the fixed HTTP answer that belongs to each.

use vstd::prelude::*;

verus! {

/// Why an operation of the service failed.
#[derive(Clone, Copy, Debug, PartialEq, Eq, Structural)]
pub enum ApiError {
    /// The access token is missing, malformed, forged or expired.
    Unauthorized,
    /// The user of the token, or the order asked for, does not exist for the caller.
    NotFound,
    /// The email is already registered.
    Conflict,
    /// The credentials presented at login do not match.
    Forbidden,
    /// The store refused a row, or a value left the range of its type.
    InternalError,
}

/// Why a token was not accepted.
#[derive(Clone, Copy, Debug, PartialEq, Eq, Structural)]
pub enum AuthError {
    /// The signature does not match, the payload does not parse, or the token has expired.
    Invalid,
}

/// The operations that the HTTP surface exposes.
#[derive(Clone, Copy, Debug, PartialEq, Eq, Structural)]
pub enum Endpoint {
    /// `POST /api/v1/auth/register`
    Register,
    /// `POST /api/v1/auth/login`
    Login,
    /// `POST /api/v1/orders`
    CreateOrder,
    /// `GET /api/v1/orders`
    ListOrders,
    /// `GET /api/v1/orders/{order_id}`
    GetOrder,
}

impl ApiError {
    /// The HTTP status that stands for this failure kind on every endpoint.
    pub open spec fn spec_status_code(self) -> u16 {
        match self {
            ApiError::Unauthorized => 401,
            ApiError::NotFound => 404,
            ApiError::Conflict => 409,
            ApiError::Forbidden => 403,
            ApiError::InternalError => 500,
        }
    }

    /// The HTTP status that stands for this failure kind on every endpoint.
    pub fn status_code(&self) -> (code: u16)
        ensures
            code == self.spec_status_code(),
    {
        match self {
            ApiError::Unauthorized => 401,
            ApiError::NotFound => 404,
            ApiError::Conflict => 409,
            ApiError::Forbidden => 403,
            ApiError::InternalError => 500,
        }
    }
}

/// The static text sent to the client for a failure of `endpoint`.
///
/// The text depends on the failure kind and, for a missing record, on what the endpoint was
/// looking for. It never carries anything that came from the store.
pub open spec fn spec_failure_message(endpoint: Endpoint, error: ApiError) -> Seq<char> {
    match error {
        ApiError::Unauthorized => "Provide proper access token"@,
        ApiError::NotFound => match endpoint {
            Endpoint::GetOrder => "Order id not correct(or not present) for the user in access_token."@,
            Endpoint::CreateOrder => "User in access_token is not found in db to create new order."@,
            _ => "User in access_token is not found in db."@,
        },
        ApiError::Conflict => "User with email already present"@,
        ApiError::Forbidden => "email and/or password not correct."@,
        ApiError::InternalError => "Something unexpected happened. Please retry"@,
    }
}

/// The static text sent to the client for a failure of `endpoint`.
pub fn failure_message(endpoint: Endpoint, error: ApiError) -> (message: &'static str)
    ensures
        message@ == spec_failure_message(endpoint, error),
{
    match error {
        ApiError::Unauthorized => "Provide proper access token",
        ApiError::NotFound => match endpoint {
            Endpoint::GetOrder => "Order id not correct(or not present) for the user in access_token.",
            Endpoint::CreateOrder => "User in access_token is not found in db to create new order.",
            _ => "User in access_token is not found in db.",
        },
        ApiError::Conflict => "User with email already present",
        ApiError::Forbidden => "email and/or password not correct.",
        ApiError::InternalError => "Something unexpected happened. Please retry",
    }
}

} // verus!
