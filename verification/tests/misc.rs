use kudos_api::api::health::db::health_status;
use kudos_api::api::notifications::db::{dismissal, notification_responses_from_rows, seen_marking};
use kudos_api::api::notifications::models::Notification;
use kudos_api::api::projects::models::Project;
use kudos_api::api::repositories::models::Repository;
use kudos_api::api::tasks::models::Task;
use kudos_api::api::teams::errors::TeamError;
use kudos_api::api::teams::handlers::{new_membership, team_failure, TeamOperation};
use kudos_api::api::teams::models::{NewTeamMembership, NewTeamMembershipPayload};
use kudos_api::types::{paginate, PaginationParams};

#[test]
fn pages_know_their_neighbours() {
    let p = paginate(vec!["a"], 10, &PaginationParams { limit: 1, offset: 0 });
    assert_eq!(p.total_count, Some(10));
    assert!(p.has_next_page);
    assert!(!p.has_previous_page);
    let last = paginate(vec!["j"], 10, &PaginationParams { limit: 1, offset: 9 });
    assert!(!last.has_next_page);
    assert!(last.has_previous_page);
    assert_eq!(last.data, vec!["j"]);
}

#[test]
fn team_failures_name_the_operation() {
    assert_eq!(
        team_failure(TeamOperation::FetchTeams, "boom", 1),
        TeamError::CannotCreate("Failed to fetch teams: boom".to_string())
    );
    assert_eq!(
        team_failure(TeamOperation::RemoveMember, "gone", 1),
        TeamError::CannotDelete("Failed to remove member from team: gone".to_string())
    );
    assert_eq!(team_failure(TeamOperation::ListMembers, "x", 12), TeamError::NotFound(12));
    assert_eq!(
        team_failure(TeamOperation::UpdateMemberRole, "y", 1),
        TeamError::CannotUpdate("Failed to update member role: y".to_string())
    );
}

#[test]
fn membership_takes_the_team_from_the_path() {
    let m = new_membership(4, NewTeamMembershipPayload { user_id: 9, role: "lead".into() });
    assert_eq!(m, NewTeamMembership { team_id: 4, user_id: 9, role: "lead".into() });
}

#[test]
fn dismissal_marks_own_notification() {
    let d = dismissal(3, 77);
    assert_eq!(seen_marking(&d), Some((77, 3)));
}

fn task() -> Task {
    Task {
        id: 1,
        number: None,
        repository_id: Some(2),
        title: "t".into(),
        description: None,
        url: None,
        labels: None,
        open: true,
        type_: "dev".into(),
        project_id: Some(3),
        created_by_user_id: None,
        assignee_user_id: None,
        assignee_team_id: None,
        funding_options: None,
        contact: None,
        skills: None,
        bounty: None,
        approved_by: None,
        approved_at: None,
        status: "open".into(),
        upvotes: None,
        downvotes: None,
        is_featured: None,
        is_certified: None,
        featured_by_user_id: None,
        issue_created_at: None,
        issue_closed_at: None,
        created_at: 0,
        updated_at: None,
    }
}

#[test]
fn notification_rows_carry_their_task() {
    let project = Project {
        id: 3,
        name: "P".into(),
        slug: "p".into(),
        types: None,
        purposes: None,
        stack_levels: None,
        technologies: None,
        avatar: None,
        rewards: None,
        created_at: 0,
        updated_at: None,
    };
    let repo = Repository { id: 2, slug: "r".into(), name: "R".into(), url: "u".into(), language_slug: None, project_id: 3, created_at: 0, updated_at: None };
    let n = Notification { id: 5, github_id: 77, task_id: 1, seen: Some(false), created_at: 9 };
    let out = notification_responses_from_rows(vec![
        (n.clone(), task(), Some(repo), project.clone(), None),
        (Notification { id: 6, ..n }, task(), None, project, None),
    ]);
    assert_eq!(out[0].id, 5);
    assert_eq!(out[0].task.repository.as_ref().unwrap().project.slug, "p");
    assert_eq!(out[0].task.user_vote, None);
    assert_eq!(out[1].task.repository, None);
}

#[test]
fn health_is_ok_when_the_database_answers() {
    assert_eq!(health_status::<String>(Ok(())), Ok(200));
    assert_eq!(health_status(Err("down".to_string())), Err("down".to_string()));
}
