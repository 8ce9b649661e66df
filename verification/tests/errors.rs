use kudos_api::api::comments::errors::CommentError;
use kudos_api::api::issue::errors::IssueError as IssueUrlError;
use kudos_api::api::issues::errors::IssueError;
use kudos_api::api::notifications::errors::NotificationError;
use kudos_api::api::projects::errors::ProjectError;
use kudos_api::api::repositories::errors::RepositoryError;
use kudos_api::api::roles::errors::RoleError;
use kudos_api::api::subscriptions::errors::UserSubscriptionError;
use kudos_api::api::tasks::errors::TaskError;
use kudos_api::api::teams::errors::TeamError;

#[test]
fn task_error_messages_and_statuses() {
    let cases = vec![
        (TaskError::AlreadyExists(3), "Task #3 already exists", 400),
        (TaskError::NotFound(-12), "Task #-12 not found", 404),
        (TaskError::UserNotFound(7), "User #7 not found", 404),
        (TaskError::UserCannotVote(), "User cannot vote", 403),
        (TaskError::ProjectNotFound(2147483647), "Project #2147483647 not found", 404),
        (TaskError::RepositoryNotFound(0), "Repository #0 not found", 404),
        (TaskError::InvalidTask("x".into()), "Invalid task: x", 400),
        (TaskError::InvalidPayload("bad".into()), "Invalid payload: bad", 404),
        (TaskError::UserAlreadyVoted(), "User already voted", 400),
        (TaskError::CannotCreate("e".into()), "Error creating the task: e", 500),
        (TaskError::CannotUpdate("e".into()), "Error updating the task: e", 500),
        (TaskError::CannotDelete("e".into()), "Error deleting the task: e", 500),
    ];
    for (e, m, c) in cases {
        assert_eq!(e.message(), m);
        assert_eq!(e.status_code(), c);
    }
}

#[test]
fn role_error_messages_and_statuses() {
    let cases = vec![
        (RoleError::AlreadyExists(1), "Role #1 already exists", 400),
        (RoleError::NotFound(2), "Role #2 not found", 404),
        (RoleError::UserNotFound(3), "User #3 not found", 404),
        (RoleError::ProjectNotFound(4), "Project #4 not found", 404),
        (RoleError::RoleNotFound(5), "Role #5 not found", 404),
        (RoleError::InvalidPayload("p".into()), "Invalid payload: p", 404),
        (RoleError::AssignationAlreadyExists(), "Assignation already exists", 400),
        (RoleError::CannotCreate("c".into()), "Error creating the role: c", 500),
        (RoleError::CannotUpdate("u".into()), "Error updating the role: u", 500),
        (RoleError::CannotDelete("d".into()), "Error deleting the role: d", 500),
        (RoleError::MissingRole("Admin".into()), "Roles needed for the action: Admin", 403),
    ];
    for (e, m, c) in cases {
        assert_eq!(e.message(), m);
        assert_eq!(e.status_code(), c);
    }
}

#[test]
fn comment_error_messages_and_statuses() {
    let cases = vec![
        (CommentError::NotFound(1), "Comment #1 not found", 404),
        (CommentError::TaskNotFound(2), "Task #2 not found, cannot create comment", 404),
        (CommentError::UserNotFound(3), "User #3 not found", 404),
        (CommentError::InvalidPayload("p".into()), "Invalid payload: p", 422),
        (CommentError::CannotCreate("c".into()), "Error creating the comment: c", 500),
        (CommentError::CannotDelete("d".into()), "Error deleting the comment: d", 500),
        (CommentError::UnauthorizedAction, "User is not authorized to perform this action", 403),
    ];
    for (e, m, c) in cases {
        assert_eq!(e.message(), m);
        assert_eq!(e.status_code(), c);
    }
}

#[test]
fn issue_url_error_messages_and_statuses() {
    let cases = vec![
        (IssueUrlError::IssueExists(8), "Issue #8 already exists", 400),
        (IssueUrlError::IssueNotFound(9), "Issue #9 not found", 404),
        (IssueUrlError::IssueInvalidURL, "Issue url is invalid", 400),
    ];
    for (e, m, c) in cases {
        assert_eq!(e.message(), m);
        assert_eq!(e.status_code(), c);
    }
}

#[test]
fn issue_error_messages_and_statuses() {
    let cases = vec![
        (IssueError::AlreadyExists(8), "Issue #8 already exists", 400),
        (IssueError::NotFound(9), "Issue #9 not found", 404),
        (IssueError::RepositoryNotFound(10), "Repository #10 not found", 422),
        (IssueError::InvalidPayload("p".into()), "Invalid payload: p", 422),
        (IssueError::CannotCreate("c".into()), "error creating the issue: c", 500),
        (IssueError::CannotUpdate("u".into()), "error updating the issue: u", 500),
    ];
    for (e, m, c) in cases {
        assert_eq!(e.message(), m);
        assert_eq!(e.status_code(), c);
    }
}

#[test]
fn notification_error_messages_and_statuses() {
    let cases = vec![
        (NotificationError::AlreadyExists(1), "Notification #1 already exists", 400),
        (NotificationError::NotFound(2), "Notification #2 not found", 404),
        (NotificationError::NotFoundByGithubUser(9223372036854775807), "No Notifications found for github user #9223372036854775807", 404),
        (NotificationError::CannotCreate("c".into()), "Notification cannot be created: c", 422),
        (NotificationError::InvalidPayload("p".into()), "Cannot create the Notification: p", 422),
        (NotificationError::CannotDelete("d".into()), "Notification cannot be deleted: d", 422),
    ];
    for (e, m, c) in cases {
        assert_eq!(e.message(), m);
        assert_eq!(e.status_code(), c);
    }
}

#[test]
fn project_error_messages_and_statuses() {
    let cases = vec![
        (ProjectError::AlreadyExists(1), "Project #1 already exists", 400),
        (ProjectError::NotFound(2), "Project #2 not found", 404),
        (ProjectError::NotFoundBySlug("kudos".into()), "Project kudos not found", 404),
        (ProjectError::InvalidPayload("p".into()), "Invalid payload: p", 422),
        (ProjectError::CannotCreate("c".into()), "Cannot create the project: c", 500),
    ];
    for (e, m, c) in cases {
        assert_eq!(e.message(), m);
        assert_eq!(e.status_code(), c);
    }
}

#[test]
fn repository_error_messages_and_statuses() {
    let cases = vec![
        (RepositoryError::AlreadyExists(1), "Repository #1 already exists", 400),
        (RepositoryError::NotFound(2), "Repository #2 not found", 404),
        (RepositoryError::NotFoundByName("api".into()), "Repository api not found", 404),
    ];
    for (e, m, c) in cases {
        assert_eq!(e.message(), m);
        assert_eq!(e.status_code(), c);
    }
}

#[test]
fn subscription_error_messages_and_statuses() {
    let cases = vec![
        (UserSubscriptionError::AlreadyExists(1), "Subscription #1 already exists", 400),
        (UserSubscriptionError::NotFound(2), "Subscription #2 not found", 404),
        (UserSubscriptionError::NotFoundByGithubUser(-9223372036854775808), "No subscriptions found for github user #-9223372036854775808", 404),
        (UserSubscriptionError::CannotCreate("c".into()), "Subscription cannot be created: c", 422),
        (UserSubscriptionError::InvalidPayload("p".into()), "Cannot create the subscription: p", 422),
        (UserSubscriptionError::CannotDelete("d".into()), "Subscription cannot be deleted: d", 422),
    ];
    for (e, m, c) in cases {
        assert_eq!(e.message(), m);
        assert_eq!(e.status_code(), c);
    }
}

#[test]
fn team_error_messages_and_statuses() {
    let cases = vec![
        (TeamError::NotFound(1), "Team #1 not found", 404),
        (TeamError::MemberNotFound(2), "Team member #2 not found", 404),
        (TeamError::InvalidPayload("p".into()), "Invalid payload: p", 422),
        (TeamError::CannotCreate("c".into()), "Error creating the resource: c", 500),
        (TeamError::CannotUpdate("u".into()), "Error updating the resource: u", 500),
        (TeamError::CannotDelete("d".into()), "Error deleting the resource: d", 500),
    ];
    for (e, m, c) in cases {
        assert_eq!(e.message(), m);
        assert_eq!(e.status_code(), c);
    }
}
