//! Subscriptions of a GitHub user to a purpose, a stack level or a technology.
use vstd::prelude::*;

verus! {

/// A subscription as stored. `created_at` is in microseconds since the Unix epoch (UTC).
#[derive(Clone, Debug, PartialEq, Eq)]
pub struct UserSubscription {
    pub id: i32,
    pub github_id: i64,
    pub purpose: Option<String>,
    pub stack_level: Option<String>,
    pub technology: Option<String>,
    pub created_at: i64,
}

/// The payload that creates a subscription.
#[derive(Clone, Debug, PartialEq, Eq)]
pub struct NewUserSubscription {
    pub github_id: Option<i64>,
    pub purpose: Option<String>,
    pub stack_level: Option<String>,
    pub technology: Option<String>,
}

/// The payload that removes a subscription.
#[derive(Clone, Debug, PartialEq, Eq)]
pub struct DeleteUserSubscription {
    pub github_id: Option<i64>,
    pub purpose: Option<String>,
    pub stack_level: Option<String>,
    pub technology: Option<String>,
}

/// What a subscription to remove is about.
#[derive(Clone, Debug, PartialEq, Eq)]
pub enum SubscriptionTarget {
    Purpose(String),
    StackLevel(String),
    Technology(String),
}

/// The subscriptions to remove: those of a GitHub user that are about one target.
#[derive(Clone, Debug, PartialEq, Eq)]
pub struct SubscriptionDeletion {
    pub github_id: i64,
    pub target: SubscriptionTarget,
}

} // verus!
