use kudos_api::api::comments::errors::CommentError;
use kudos_api::api::comments::handlers::{
    authorize_comment_removal, comment_removal, comment_response, comment_response_at, comment_responses,
    created_comment_response, new_comment, CommentRemoval,
};
use kudos_api::api::comments::models::{Comment, CreateCommentPayload, NewComment};
use kudos_api::api::roles::models::KudosRole;
use kudos_api::api::users::models::User;

fn comment(status: &str) -> Comment {
    Comment {
        id: 5,
        content: "hello".to_string(),
        task_id: 2,
        user_id: 8,
        parent_comment_id: Some(4),
        created_at: 100,
        updated_at: None,
        status: status.to_string(),
    }
}

fn user() -> User {
    User {
        id: 8,
        username: "ada".to_string(),
        avatar: Some("a.png".into()),
        github_id: Some(1),
        created_at: 1,
        updated_at: Some(2),
        email: Some("a@b.c".into()),
        email_notifications_enabled: true,
    }
}

#[test]
fn removed_comments_are_masked() {
    let r = comment_response_at(comment("deleted"), user(), 777);
    assert_eq!(r.content, "[deleted]");
    assert_eq!(r.status, "deleted");
    assert_eq!(r.id, 5);
    assert_eq!(r.parent_comment_id, Some(4));
    assert_eq!(
        r.user,
        User {
            id: -1,
            username: "[deleted]".to_string(),
            avatar: None,
            github_id: None,
            created_at: 777,
            updated_at: None,
            email: None,
            email_notifications_enabled: false,
        }
    );
}

#[test]
fn other_comments_are_shown_as_written() {
    let r = comment_response(comment("active"), user());
    assert_eq!(r.content, "hello");
    assert_eq!(r.user, user());
    assert_eq!(r.created_at, 100);
}

#[test]
fn masking_dates_the_placeholder_with_the_clock() {
    let r = comment_response(comment("deleted"), user());
    assert_eq!(r.user.id, -1);
    assert!(r.user.created_at > 1_500_000_000_000_000);
}

#[test]
fn list_keeps_order() {
    let list = comment_responses(vec![(comment("active"), user()), (Comment { id: 6, ..comment("deleted") }, user())]);
    assert_eq!(list.iter().map(|c| c.id).collect::<Vec<_>>(), vec![5, 6]);
    assert_eq!(list[1].content, "[deleted]");
}

#[test]
fn new_comment_from_payload() {
    let c = new_comment(CreateCommentPayload { content: "hi".into(), task_id: 99, parent_comment_id: None }, 3, 8);
    assert_eq!(c, NewComment { content: "hi".into(), task_id: 3, user_id: 8, parent_comment_id: None });
    let r = created_comment_response(comment("active"), user());
    assert_eq!(r.content, "hello");
}

#[test]
fn authors_and_admins_remove_comments() {
    assert_eq!(authorize_comment_removal(8, 8, vec![]), Ok(()));
    assert_eq!(authorize_comment_removal(8, 9, vec![KudosRole::Admin]), Ok(()));
    assert_eq!(
        authorize_comment_removal(8, 9, vec![KudosRole::EcosystemArchitect]),
        Err(CommentError::UnauthorizedAction)
    );
}

#[test]
fn comments_with_replies_are_kept() {
    assert_eq!(comment_removal(true), CommentRemoval::MarkDeleted);
    assert_eq!(comment_removal(false), CommentRemoval::Delete);
}
