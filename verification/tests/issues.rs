use kudos_api::api::issues::errors::IssueError;
use kudos_api::api::issues::handlers::{
    assignee_removal_failure, assignee_update, assignee_update_failure, check_issue_update, existing_issue_outcome,
    issue_creation_failure, issue_update_failure, leaderboard, leaderboard_query, repository_lookup_outcome, tally,
};
use kudos_api::api::issues::models::{
    issue_responses_from_rows, Issue, IssueResponse, LeaderboardQueryParams, UpdateIssue,
};
use kudos_api::api::projects::models::Project;
use kudos_api::api::repositories::models::Repository;

fn issue(id: i32, certified: Option<bool>) -> Issue {
    Issue {
        id,
        number: 100 + id,
        title: "t".to_string(),
        labels: None,
        open: false,
        certified,
        assignee_id: Some(3),
        repository_id: 2,
        issue_created_at: 1,
        issue_closed_at: Some(2),
        created_at: 3,
        updated_at: None,
        description: None,
        estimation: 5,
    }
}

fn repository() -> Repository {
    Repository { id: 2, slug: "r".into(), name: "R".into(), url: "u".into(), language_slug: None, project_id: 7, created_at: 0, updated_at: None }
}

fn project() -> Project {
    Project {
        id: 7,
        name: "P".into(),
        slug: "p".into(),
        types: None,
        purposes: None,
        stack_levels: None,
        technologies: None,
        avatar: Some("a.png".into()),
        rewards: None,
        created_at: 0,
        updated_at: None,
    }
}

fn rows(names: &[Option<&str>]) -> Vec<IssueResponse> {
    let rows = names
        .iter()
        .enumerate()
        .map(|(i, n)| (issue(i as i32, None), repository(), project(), n.map(str::to_string), None))
        .collect();
    issue_responses_from_rows(rows)
}

#[test]
fn rows_become_issue_responses() {
    let r = issue_responses_from_rows(vec![
        (issue(1, None), repository(), project(), Some("ann".into()), Some("pic".into())),
        (issue(2, Some(true)), repository(), project(), None, None),
    ]);
    assert_eq!(r.len(), 2);
    assert_eq!(r[0].issue_id, 101);
    assert!(!r[0].certified);
    assert!(r[1].certified);
    assert_eq!(r[0].assignee_username, Some("ann".to_string()));
    assert_eq!(r[0].assignee_avatar, Some("pic".to_string()));
    assert_eq!(r[0].repository.project.avatar, Some("a.png".to_string()));
    assert_eq!(r[1].estimation, 5);
}

#[test]
fn leaderboard_counts_issues_per_assignee() {
    let issues = rows(&[Some("bob"), Some("amy"), Some("bob"), None, Some("bob"), Some("")]);
    let board = leaderboard(&issues);
    let lines: Vec<(String, u64, u64)> = board.iter().map(|e| (e.username.clone(), e.issues, e.score)).collect();
    assert_eq!(
        lines,
        vec![
            ("bob".to_string(), 3, 3),
            ("amy".to_string(), 1, 1),
            (String::new(), 1, 1),
            (String::new(), 1, 1),
        ]
    );
    let total: u64 = board.iter().map(|e| e.score).sum();
    assert_eq!(total, issues.len() as u64);
}

#[test]
fn empty_leaderboard() {
    assert!(leaderboard(&vec![]).is_empty());
}

#[test]
fn tally_keeps_first_occurrence_order() {
    let (keys, counts) = tally(&vec![Some("x".to_string()), None, Some("x".to_string()), None]);
    assert_eq!(keys, vec![Some("x".to_string()), None]);
    assert_eq!(counts, vec![2, 2]);
}

#[test]
fn leaderboard_counts_closed_assigned_issues() {
    let q = leaderboard_query(LeaderboardQueryParams {
        slugs: Some("ignored".into()),
        certified: Some(true),
        purposes: None,
        stack_levels: None,
        technologies: Some("rust".into()),
        labels: None,
        language_slug: Some("go".into()),
        repository_id: Some(4),
        start_date: Some(10),
        close_date: Some(20),
        rewards: None,
        types: None,
    });
    assert_eq!(q.open, Some(false));
    assert_eq!(q.has_assignee, Some(true));
    assert_eq!(q.slugs, None);
    assert_eq!(q.language_slugs, Some("go".to_string()));
    assert_eq!((q.issue_closed_at_min, q.issue_closed_at_max), (Some(10), Some(20)));
    assert_eq!(q.assignee_id, None);
}

#[test]
fn empty_update_is_refused() {
    assert_eq!(
        check_issue_update(&UpdateIssue::default()),
        Err(IssueError::InvalidPayload("all the fields are empty".to_string()))
    );
    let u = UpdateIssue { open: Some(false), ..UpdateIssue::default() };
    assert!(u.has_any_field());
    assert_eq!(check_issue_update(&u), Ok(()));
}

#[test]
fn update_failures() {
    assert_eq!(
        issue_update_failure("new row violates check constraint \"issue_closed_at_check\""),
        IssueError::InvalidPayload("issue_closed_at is lower than issue_created_at".to_string())
    );
    assert_eq!(issue_update_failure("x"), IssueError::CannotUpdate("error updating the issue".to_string()));
    assert_eq!(assignee_update_failure(), IssueError::CannotUpdate("error updating the issue assignee".to_string()));
    assert_eq!(assignee_removal_failure(), IssueError::CannotUpdate("error deleting the issue assignee".to_string()));
}

#[test]
fn creation_checks() {
    assert_eq!(repository_lookup_outcome::<()>(Ok(true), 2), Ok(()));
    assert_eq!(repository_lookup_outcome::<()>(Ok(false), 2), Err(IssueError::RepositoryNotFound(2)));
    assert_eq!(
        repository_lookup_outcome::<()>(Err(()), 2),
        Err(IssueError::CannotCreate("cannot check if the repository is valid".to_string()))
    );
    assert_eq!(existing_issue_outcome(Some(14)), Err(IssueError::AlreadyExists(14)));
    assert_eq!(existing_issue_outcome(None), Ok(()));
    assert_eq!(issue_creation_failure(), IssueError::CannotCreate("error creating the issue".to_string()));
}

#[test]
fn assignee_update_sets_only_the_assignee() {
    let u = assignee_update(Some(6)).unwrap();
    assert_eq!(u, UpdateIssue { assignee_id: Some(6), ..UpdateIssue::default() });
    assert_eq!(assignee_update(None), Err(IssueError::InvalidPayload("username not found".to_string())));
}

#[test]
fn assignee_removal_statement_names_the_issue() {
    assert_eq!(
        kudos_api::api::issues::handlers::assignee_removal_sql(31),
        "UPDATE issues SET assignee_id = NULL, updated_at = now() WHERE id = 31"
    );
}
