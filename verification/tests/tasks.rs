use kudos_api::api::projects::models::Project;
use kudos_api::api::repositories::models::Repository;
use kudos_api::api::roles::errors::RoleError;
use kudos_api::api::roles::models::KudosRole;
use kudos_api::api::tasks::db::{task_response_from_row, task_responses_from_rows};
use kudos_api::api::tasks::errors::TaskError;
use kudos_api::api::tasks::handlers::{
    authorize_task_creation, authorize_task_deletion, authorize_task_update, authorize_vote, creation_failure,
    prepare_new_task, validate_update_type, vote_record, vote_removal_outcome,
};
use kudos_api::api::tasks::models::{NewTask, Task, TaskResponse, UpdateTask};
use kudos_api::api::tasks::utils::validate_task_type;
use kudos_api::api::users::models::User;

fn new_task(type_: &str) -> NewTask {
    NewTask {
        repository_id: None,
        title: "Write docs".to_string(),
        description: None,
        url: None,
        labels: None,
        open: None,
        type_: type_.to_string(),
        project_id: None,
        created_by_user_id: None,
        assignee_user_id: None,
        assignee_team_id: None,
        funding_options: None,
        contact: None,
        skills: None,
        bounty: None,
        approved_by: None,
        status: None,
        is_featured: None,
        is_certified: None,
        featured_by_user_id: None,
        issue_created_at: None,
    }
}

fn task() -> Task {
    Task {
        id: 11,
        number: Some(4),
        repository_id: Some(2),
        title: "Fix".to_string(),
        description: Some("d".to_string()),
        url: None,
        labels: Some(vec![Some("bug".to_string()), None]),
        open: true,
        type_: "dev".to_string(),
        project_id: Some(3),
        created_by_user_id: Some(1),
        assignee_user_id: Some(8),
        assignee_team_id: None,
        funding_options: None,
        contact: None,
        skills: None,
        bounty: Some(100),
        approved_by: Some(vec![Some(1)]),
        approved_at: Some(1_700_000_000_000_000),
        status: "open".to_string(),
        upvotes: Some(2),
        downvotes: Some(1),
        is_featured: None,
        is_certified: Some(true),
        featured_by_user_id: None,
        issue_created_at: None,
        issue_closed_at: None,
        created_at: 1_600_000_000_000_000,
        updated_at: None,
    }
}

fn repository() -> Repository {
    Repository {
        id: 2,
        slug: "api".to_string(),
        name: "API".to_string(),
        url: "https://example.org/api".to_string(),
        language_slug: Some("rust".to_string()),
        project_id: 3,
        created_at: 5,
        updated_at: None,
    }
}

fn project() -> Project {
    Project {
        id: 3,
        name: "Kudos".to_string(),
        slug: "kudos".to_string(),
        types: Some(vec![Some("dev".to_string())]),
        purposes: None,
        stack_levels: None,
        technologies: None,
        avatar: None,
        rewards: Some(true),
        created_at: 6,
        updated_at: Some(7),
    }
}

fn user() -> User {
    User {
        id: 8,
        username: "ada".to_string(),
        avatar: None,
        github_id: Some(42),
        created_at: 9,
        updated_at: None,
        email: None,
        email_notifications_enabled: true,
    }
}

#[test]
fn task_types_are_dev_non_dev_or_wish() {
    assert_eq!(validate_task_type("dev"), Ok(()));
    assert_eq!(validate_task_type("non-dev"), Ok(()));
    assert_eq!(validate_task_type("wish"), Ok(()));
    assert_eq!(
        validate_task_type("Dev"),
        Err(TaskError::InvalidPayload("invalid typeL use dev, non-dev or wish".to_string()))
    );
    assert!(validate_task_type("").is_err());
}

#[test]
fn contributors_create_plain_tasks_only() {
    let plain = new_task("dev");
    assert_eq!(authorize_task_creation(vec![KudosRole::Contributor], &plain), Ok(()));
    let mut curated = new_task("dev");
    curated.bounty = Some(5);
    assert_eq!(authorize_task_creation(vec![KudosRole::Contributor], &curated), Ok(()));
    curated.is_featured = Some(true);
    assert_eq!(
        authorize_task_creation(vec![KudosRole::Contributor], &curated),
        Err(RoleError::MissingRole("Admin, MaintainerWithProjects(None), EcosystemArchitect".to_string()))
    );
}

#[test]
fn maintainers_create_tasks_of_their_projects() {
    let mut t = new_task("dev");
    t.project_id = Some(3);
    let maintainer = KudosRole::MaintainerWithProjects(Some(vec![3]));
    assert_eq!(authorize_task_creation(vec![maintainer], &t), Ok(()));
    let other = KudosRole::MaintainerWithProjects(Some(vec![4]));
    assert_eq!(
        authorize_task_creation(vec![other], &t),
        Err(RoleError::MissingRole("Admin, MaintainerWithProjects(Some([3])), EcosystemArchitect".to_string()))
    );
}

#[test]
fn curators_may_do_everything() {
    let mut change = UpdateTask::default();
    change.project_id = Some(9);
    for role in [KudosRole::Admin, KudosRole::EcosystemArchitect] {
        assert_eq!(authorize_task_creation(vec![role.clone()], &new_task("wish")), Ok(()));
        assert_eq!(authorize_task_update(vec![role.clone()], &change), Ok(()));
        assert_eq!(authorize_task_deletion(vec![role.clone()]), Ok(()));
        assert_eq!(authorize_vote(vec![role]), Ok(()));
    }
}

#[test]
fn contributors_vote_but_do_not_delete() {
    assert_eq!(authorize_vote(vec![KudosRole::Contributor]), Ok(()));
    assert_eq!(
        authorize_task_deletion(vec![KudosRole::Contributor]),
        Err(RoleError::MissingRole("Admin, EcosystemArchitect".to_string()))
    );
    assert!(authorize_task_update(vec![KudosRole::Contributor], &UpdateTask::default()).is_err());
}

#[test]
fn new_task_gets_its_creator() {
    let t = prepare_new_task(new_task("non-dev"), 17).unwrap();
    assert_eq!(t.created_by_user_id, Some(17));
    assert_eq!(t.title, "Write docs");
    assert_eq!(
        prepare_new_task(new_task("chore"), 17),
        Err(TaskError::InvalidPayload("invalid typeL use dev, non-dev or wish".to_string()))
    );
}

#[test]
fn update_type_is_checked_when_given() {
    assert_eq!(validate_update_type(&UpdateTask::default()), Ok(()));
    let mut u = UpdateTask::default();
    u.type_ = Some("wish".to_string());
    assert_eq!(validate_update_type(&u), Ok(()));
    u.type_ = Some("epic".to_string());
    assert!(validate_update_type(&u).is_err());
}

#[test]
fn update_payload_fields() {
    let mut u = UpdateTask::default();
    assert!(!u.has_any_field());
    u.contact = Some("mail".to_string());
    assert!(u.has_any_field());
}

#[test]
fn creation_failure_maps_missing_project() {
    assert_eq!(
        creation_failure("insert or update on table \"tasks\" violates foreign key constraint \"tasks_project_id_fkey\"", Some(9)),
        TaskError::ProjectNotFound(9)
    );
    assert_eq!(creation_failure("timeout", None), TaskError::CannotCreate("error creating the task".to_string()));
}

#[test]
fn votes_are_plus_or_minus_one() {
    let up = vote_record(1, 2, true);
    assert_eq!((up.user_id, up.task_id, up.vote), (1, 2, 1));
    assert_eq!(vote_record(1, 2, false).vote, -1);
}

#[test]
fn vote_removal_succeeds_even_without_a_vote() {
    assert_eq!(vote_removal_outcome::<String>(Ok(0)), Ok(()));
    assert_eq!(vote_removal_outcome::<String>(Ok(1)), Ok(()));
    assert_eq!(
        vote_removal_outcome(Err("down".to_string())),
        Err(TaskError::CannotDelete("Failed to delete vote".to_string()))
    );
}

#[test]
fn task_response_from_task() {
    let r: TaskResponse = TaskResponse::from(task());
    assert_eq!(r.id, 11);
    assert_eq!(r.labels, Some(vec![Some("bug".to_string()), None]));
    assert_eq!(r.user, None);
    assert_eq!(r.repository, None);
    assert_eq!(r.user_vote, None);
    assert_eq!(r.approved_at, Some(1_700_000_000_000_000));
}

#[test]
fn rows_join_repository_only_with_its_project() {
    let full = task_response_from_row((task(), Some(repository()), Some(project()), Some(user()), Some(-1)));
    let repo = full.repository.clone().unwrap();
    assert_eq!(repo.slug, "api");
    assert_eq!(repo.project.slug, "kudos");
    assert_eq!(repo.project.rewards, Some(true));
    assert_eq!(full.user.unwrap().username, "ada");
    assert_eq!(full.user_vote, Some(-1));
    let partial = task_response_from_row((task(), Some(repository()), None, None, None));
    assert_eq!(partial.repository, None);
    let list = task_responses_from_rows(vec![
        (task(), None, None, None, None),
        (Task { id: 12, ..task() }, None, Some(project()), None, Some(1)),
    ]);
    assert_eq!(list.iter().map(|t| t.id).collect::<Vec<_>>(), vec![11, 12]);
    assert_eq!(list[1].user_vote, Some(1));
}
