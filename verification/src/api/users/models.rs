//! Users, as the other endpoints return them.
use vstd::prelude::*;

verus! {

/// A registered user. Times are microseconds since the Unix epoch (UTC).
#[derive(Clone, Debug, PartialEq, Eq)]
pub struct User {
    pub id: i32,
    pub username: String,
    pub avatar: Option<String>,
    pub github_id: Option<i64>,
    pub created_at: i64,
    pub updated_at: Option<i64>,
    pub email: Option<String>,
    pub email_notifications_enabled: bool,
}

} // verus!
