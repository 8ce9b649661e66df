//! Comments on tasks. Times are microseconds since the Unix epoch (UTC).
use vstd::prelude::*;
use crate::api::users::models::User;

verus! {

/// A comment as stored. A comment whose `status` is `deleted` was removed by its author or an
/// admin but kept because it has replies.
#[derive(Clone, Debug, PartialEq, Eq)]
pub struct Comment {
    pub id: i32,
    pub content: String,
    pub task_id: i32,
    pub user_id: i32,
    pub parent_comment_id: Option<i32>,
    pub created_at: i64,
    pub updated_at: Option<i64>,
    pub status: String,
}

/// A comment as the API returns it, with its author.
#[derive(Clone, Debug, PartialEq, Eq)]
pub struct CommentResponse {
    pub id: i32,
    pub content: String,
    pub created_at: i64,
    pub user: User,
    pub parent_comment_id: Option<i32>,
    pub status: String,
}

/// A comment to store.
#[derive(Clone, Debug, PartialEq, Eq)]
pub struct NewComment {
    pub content: String,
    pub task_id: i32,
    pub user_id: i32,
    pub parent_comment_id: Option<i32>,
}

/// The payload that posts a comment.
#[derive(Clone, Debug, PartialEq, Eq)]
pub struct CreateCommentPayload {
    pub content: String,
    pub task_id: i32,
    pub parent_comment_id: Option<i32>,
}

} // verus!
