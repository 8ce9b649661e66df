//! Notifications of new tasks sent to GitHub users. Times are microseconds since the Unix
//! epoch (UTC).
use vstd::prelude::*;
use crate::api::tasks::models::TaskResponse;

verus! {

/// A notification as stored.
#[derive(Clone, Debug, PartialEq, Eq)]
pub struct Notification {
    pub id: i32,
    pub github_id: i64,
    pub task_id: i32,
    pub seen: Option<bool>,
    pub created_at: i64,
}

/// A notification its user dismisses.
#[derive(Clone, Debug, PartialEq, Eq)]
pub struct DeleteNotification {
    pub id: i32,
    pub github_id: Option<i64>,
}

/// A notification as the API returns it, with its task.
#[derive(Clone, Debug, PartialEq, Eq)]
pub struct NotificationResponse {
    pub id: i32,
    pub task_id: i32,
    pub task: TaskResponse,
    pub created_at: i64,
}

} // verus!
