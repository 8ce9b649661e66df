//! The decisions of the comment endpoints: how removed comments are shown, who may remove a
//! comment, and whether a removal keeps the comment.
use vstd::prelude::*;
use super::errors::CommentError;
use super::models::{Comment, CommentResponse, CreateCommentPayload, NewComment};
use crate::api::roles::models::{KudosRole, RoleView, roles_view};
use crate::api::roles::utils::{has_at_least_one_role, user_has_at_least_one_role};
use crate::api::users::models::User;
use crate::clock::now_micros;
use crate::text::str_eq;

verus! {

/// The status of a comment that was removed but kept for its replies.
pub const DELETED_STATUS: &'static str = "deleted";

/// The text and name shown in place of a removed comment and its author.
pub const DELETED_PLACEHOLDER: &'static str = "[deleted]";

/// The author shown for a removed comment: no real user, with no contact and no avatar.
pub open spec fn is_placeholder_user(u: User) -> bool {
    &&& u.id == -1
    &&& u.username@ == DELETED_PLACEHOLDER@
    &&& u.avatar is None
    &&& u.github_id is None
    &&& u.updated_at is None
    &&& u.email is None
    &&& !u.email_notifications_enabled
}

/// The author shown for a removed comment, created at the given time.
pub fn deleted_user(now: i64) -> (u: User)
    ensures
        is_placeholder_user(u),
        u.created_at == now,
{
    User {
        id: -1,
        username: DELETED_PLACEHOLDER.to_owned(),
        avatar: None,
        github_id: None,
        created_at: now,
        updated_at: None,
        email: None,
        email_notifications_enabled: false,
    }
}

/// How a stored comment and its author are shown, given the time of the answer: a removed
/// comment shows `[deleted]` as its text and a placeholder author; any other comment shows its
/// text and author. Identity, time, parent and status are shown as stored.
pub fn comment_response_at(comment: Comment, user: User, now: i64) -> (r: CommentResponse)
    ensures
        r.id == comment.id,
        r.status == comment.status,
        r.created_at == comment.created_at,
        r.parent_comment_id == comment.parent_comment_id,
        comment.status@ == DELETED_STATUS@ ==> {
            &&& r.content@ == DELETED_PLACEHOLDER@
            &&& is_placeholder_user(r.user)
            &&& r.user.created_at == now
        },
        comment.status@ != DELETED_STATUS@ ==> r.content == comment.content && r.user == user,
{
    if str_eq(comment.status.as_str(), DELETED_STATUS) {
        CommentResponse {
            id: comment.id,
            status: comment.status,
            content: DELETED_PLACEHOLDER.to_owned(),
            created_at: comment.created_at,
            parent_comment_id: comment.parent_comment_id,
            user: deleted_user(now),
        }
    } else {
        CommentResponse {
            id: comment.id,
            status: comment.status,
            content: comment.content,
            created_at: comment.created_at,
            parent_comment_id: comment.parent_comment_id,
            user,
        }
    }
}

/// How a stored comment and its author are shown now; the placeholder author of a removed
/// comment is dated by the clock, of which nothing is known.
pub fn comment_response(comment: Comment, user: User) -> (r: CommentResponse)
    ensures
        r.id == comment.id,
        r.status == comment.status,
        r.created_at == comment.created_at,
        r.parent_comment_id == comment.parent_comment_id,
        comment.status@ == DELETED_STATUS@ ==> r.content@ == DELETED_PLACEHOLDER@ && is_placeholder_user(
            r.user,
        ),
        comment.status@ != DELETED_STATUS@ ==> r.content == comment.content && r.user == user,
{
    let now = now_micros();
    comment_response_at(comment, user, now)
}

/// How the comments of a task are shown, in the order read.
pub fn comment_responses(rows: Vec<(Comment, User)>) -> (r: Vec<CommentResponse>)
    ensures
        r@.len() == rows@.len(),
        forall|i: int| 0 <= i < rows@.len() ==> {
            let (c, u) = #[trigger] rows@[i];
            &&& r@[i].id == c.id
            &&& r@[i].status == c.status
            &&& r@[i].created_at == c.created_at
            &&& r@[i].parent_comment_id == c.parent_comment_id
            &&& c.status@ == DELETED_STATUS@ ==> r@[i].content@ == DELETED_PLACEHOLDER@
                && is_placeholder_user(r@[i].user)
            &&& c.status@ != DELETED_STATUS@ ==> r@[i].content == c.content && r@[i].user == u
        },
{
    let ghost all = rows@;
    let mut rows = rows;
    let mut out: Vec<CommentResponse> = Vec::new();
    while rows.len() > 0
        invariant
            out@.len() + rows@.len() == all.len(),
            rows@ == all.skip(out@.len() as int),
            forall|i: int| 0 <= i < out@.len() ==> {
                let (c, u) = #[trigger] all[i];
                &&& out@[i].id == c.id
                &&& out@[i].status == c.status
                &&& out@[i].created_at == c.created_at
                &&& out@[i].parent_comment_id == c.parent_comment_id
                &&& c.status@ == DELETED_STATUS@ ==> out@[i].content@ == DELETED_PLACEHOLDER@
                    && is_placeholder_user(out@[i].user)
                &&& c.status@ != DELETED_STATUS@ ==> out@[i].content == c.content && out@[i].user == u
            },
        decreases rows@.len(),
    {
        let ghost k = out@.len() as int;
        let (comment, user) = rows.remove(0);
        assert((comment, user) == all[k]);
        out.push(comment_response(comment, user));
        assert(rows@ =~= all.skip(k + 1));
    }
    out
}

/// The comment to store for a payload posted on a task by a user.
pub fn new_comment(payload: CreateCommentPayload, task_id: i32, user_id: i32) -> (c: NewComment)
    ensures
        c == (NewComment {
            content: payload.content,
            task_id,
            user_id,
            parent_comment_id: payload.parent_comment_id,
        }),
{
    NewComment { content: payload.content, task_id, user_id, parent_comment_id: payload.parent_comment_id }
}

/// The response for a comment just stored, with its author.
pub fn created_comment_response(comment: Comment, user: User) -> (r: CommentResponse)
    ensures
        r == (CommentResponse {
            id: comment.id,
            content: comment.content,
            created_at: comment.created_at,
            user,
            parent_comment_id: comment.parent_comment_id,
            status: comment.status,
        }),
{
    CommentResponse {
        id: comment.id,
        content: comment.content,
        created_at: comment.created_at,
        user,
        parent_comment_id: comment.parent_comment_id,
        status: comment.status,
    }
}

/// A user may remove a comment when the user wrote it or is an admin.
pub open spec fn may_remove_comment(author_id: i32, requester_id: i32, requester_roles: Seq<RoleView>) -> bool {
    author_id == requester_id || has_at_least_one_role(requester_roles, seq![RoleView::Admin])
}

/// Whether the requester may remove a comment written by `author_id`.
pub fn authorize_comment_removal(author_id: i32, requester_id: i32, requester_roles: Vec<KudosRole>) -> (r:
    Result<(), CommentError>)
    ensures
        r is Ok <==> may_remove_comment(author_id, requester_id, roles_view(requester_roles@)),
        r is Err ==> r == Err::<(), CommentError>(CommentError::UnauthorizedAction),
{
    let ghost roles = roles_view(requester_roles@);
    let mut admin: Vec<KudosRole> = Vec::new();
    admin.push(KudosRole::Admin);
    assert(roles_view(admin@) =~= seq![RoleView::Admin]);
    let is_admin = user_has_at_least_one_role(requester_roles, admin).is_ok();
    if author_id != requester_id && !is_admin {
        Err(CommentError::UnauthorizedAction)
    } else {
        Ok(())
    }
}

/// How a comment is removed: a comment with replies is kept and marked as removed; one without
/// replies is deleted.
#[derive(Clone, Copy, Debug, PartialEq, Eq)]
pub enum CommentRemoval {
    MarkDeleted,
    Delete,
}

/// How a comment is removed, given whether it has replies.
pub fn comment_removal(has_replies: bool) -> (r: CommentRemoval)
    ensures
        r == (if has_replies { CommentRemoval::MarkDeleted } else { CommentRemoval::Delete }),
{
    if has_replies {
        CommentRemoval::MarkDeleted
    } else {
        CommentRemoval::Delete
    }
}

} // verus!
