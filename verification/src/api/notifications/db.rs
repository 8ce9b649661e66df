//! How notification rows become the notifications the API returns, and which notification a
//! dismissal marks as seen.
use vstd::prelude::*;
use super::models::{DeleteNotification, Notification, NotificationResponse};
use crate::api::projects::models::Project;
use crate::api::repositories::models::{Repository, RepositoryResponse, repository_response, repository_response_of};
use crate::api::tasks::models::{Task, task_response, task_response_of};
use crate::api::users::models::User;

verus! {

/// A notification joined with its task, the task's repository, the repository's project and
/// the task's assignee.
pub type NotificationRow = (Notification, Task, Option<Repository>, Project, Option<User>);

/// The repository of a notified task as returned, with its project.
pub open spec fn notified_repository(repo: Option<Repository>, project: Project) -> Option<RepositoryResponse> {
    match repo {
        Some(r) => Some(repository_response_of(r, project)),
        None => None,
    }
}

/// The notification a row stands for: its task with assignee and repository, and no vote.
pub open spec fn notification_response_of_row(row: NotificationRow) -> NotificationResponse {
    let (n, task, repo, project, user) = row;
    NotificationResponse {
        id: n.id,
        task_id: n.task_id,
        task: task_response_of(task, user, notified_repository(repo, project), None),
        created_at: n.created_at,
    }
}

/// The notification a row stands for.
pub fn notification_response_from_row(row: NotificationRow) -> (r: NotificationResponse)
    ensures
        r == notification_response_of_row(row),
{
    let (n, task, repo, project, user) = row;
    let repository = match repo {
        Some(r) => Some(repository_response(r, project)),
        None => None,
    };
    NotificationResponse {
        id: n.id,
        task_id: n.task_id,
        task: task_response(task, user, repository, None),
        created_at: n.created_at,
    }
}

/// The notifications the rows stand for, in row order.
pub fn notification_responses_from_rows(rows: Vec<NotificationRow>) -> (r: Vec<NotificationResponse>)
    ensures
        r@ == rows@.map_values(|row: NotificationRow| notification_response_of_row(row)),
{
    let ghost all = rows@;
    let mut rows = rows;
    let mut out: Vec<NotificationResponse> = Vec::new();
    while rows.len() > 0
        invariant
            out@.len() + rows@.len() == all.len(),
            rows@ == all.skip(out@.len() as int),
            out@ == all.take(out@.len() as int).map_values(
                |row: NotificationRow| notification_response_of_row(row),
            ),
        decreases rows@.len(),
    {
        let ghost k = out@.len() as int;
        let row = rows.remove(0);
        assert(row == all[k]);
        out.push(notification_response_from_row(row));
        assert(all.take(k + 1) =~= all.take(k).push(all[k]));
        assert(out@ =~= all.take(k + 1).map_values(|row: NotificationRow| notification_response_of_row(row)));
        assert(rows@ =~= all.skip(k + 1));
    }
    assert(all.take(all.len() as int) =~= all);
    out
}

/// The notification a dismissal marks as seen, as `(github id, notification id)`: only one of
/// the dismissing user's own notifications; `None` when the dismissal names no user.
pub fn seen_marking(d: &DeleteNotification) -> (r: Option<(i64, i32)>)
    ensures
        r == (match d.github_id {
            Some(g) => Some((g, d.id)),
            None => None::<(i64, i32)>,
        }),
{
    match d.github_id {
        Some(g) => Some((g, d.id)),
        None => None,
    }
}

/// The dismissal of a notification by the GitHub user who asks.
pub fn dismissal(id: i32, github_id: i64) -> (d: DeleteNotification)
    ensures
        d == (DeleteNotification { id, github_id: Some(github_id) }),
{
    DeleteNotification { id, github_id: Some(github_id) }
}

} // verus!
