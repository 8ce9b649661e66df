//! Errors of the subscription endpoints.
use vstd::prelude::*;
use crate::status;
use crate::text::{concat2, int_to_decimal, with_number};

verus! {

/// Errors of the subscription endpoints: why a request failed.
#[derive(Clone, Debug, PartialEq, Eq)]
pub enum UserSubscriptionError {
    AlreadyExists(i32),
    NotFound(i32),
    NotFoundByGithubUser(i64),
    CannotCreate(String),
    InvalidPayload(String),
    CannotDelete(String),
}

impl UserSubscriptionError {
    /// The text shown to the client.
    pub open spec fn spec_message(&self) -> Seq<char> {
        match self {
            UserSubscriptionError::AlreadyExists(x) => "Subscription #"@ + int_to_decimal(*x as int) + " already exists"@,
            UserSubscriptionError::NotFound(x) => "Subscription #"@ + int_to_decimal(*x as int) + " not found"@,
            UserSubscriptionError::NotFoundByGithubUser(x) => "No subscriptions found for github user #"@ + int_to_decimal(*x as int) + ""@,
            UserSubscriptionError::CannotCreate(x) => "Subscription cannot be created: "@ + x@,
            UserSubscriptionError::InvalidPayload(x) => "Cannot create the subscription: "@ + x@,
            UserSubscriptionError::CannotDelete(x) => "Subscription cannot be deleted: "@ + x@,
        }
    }

    /// The text shown to the client.
    pub fn message(&self) -> (m: String)
        ensures
            m@ == self.spec_message(),
    {
        match self {
            UserSubscriptionError::AlreadyExists(x) => with_number("Subscription #", *x as i64, " already exists"),
            UserSubscriptionError::NotFound(x) => with_number("Subscription #", *x as i64, " not found"),
            UserSubscriptionError::NotFoundByGithubUser(x) => with_number("No subscriptions found for github user #", *x, ""),
            UserSubscriptionError::CannotCreate(x) => concat2("Subscription cannot be created: ", x.as_str()),
            UserSubscriptionError::InvalidPayload(x) => concat2("Cannot create the subscription: ", x.as_str()),
            UserSubscriptionError::CannotDelete(x) => concat2("Subscription cannot be deleted: ", x.as_str()),
        }
    }

    /// The HTTP status the error is answered with.
    pub open spec fn spec_status_code(&self) -> u16 {
        match self {
            UserSubscriptionError::AlreadyExists(_) => status::BAD_REQUEST,
            UserSubscriptionError::NotFound(_) => status::NOT_FOUND,
            UserSubscriptionError::NotFoundByGithubUser(_) => status::NOT_FOUND,
            UserSubscriptionError::CannotCreate(_) => status::UNPROCESSABLE_ENTITY,
            UserSubscriptionError::InvalidPayload(_) => status::UNPROCESSABLE_ENTITY,
            UserSubscriptionError::CannotDelete(_) => status::UNPROCESSABLE_ENTITY,
        }
    }

    /// The HTTP status the error is answered with.
    pub fn status_code(&self) -> (c: u16)
        ensures
            c == self.spec_status_code(),
    {
        match self {
            UserSubscriptionError::AlreadyExists(_) => status::BAD_REQUEST,
            UserSubscriptionError::NotFound(_) => status::NOT_FOUND,
            UserSubscriptionError::NotFoundByGithubUser(_) => status::NOT_FOUND,
            UserSubscriptionError::CannotCreate(_) => status::UNPROCESSABLE_ENTITY,
            UserSubscriptionError::InvalidPayload(_) => status::UNPROCESSABLE_ENTITY,
            UserSubscriptionError::CannotDelete(_) => status::UNPROCESSABLE_ENTITY,
        }
    }
}

} // verus!
