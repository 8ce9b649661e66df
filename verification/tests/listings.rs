use kudos_api::api::issues::db::{issue_filters, IssueListingFilter};
use kudos_api::api::issues::handlers::leaderboard_query;
use kudos_api::api::issues::models::{LeaderboardQueryParams, QueryParams as IssueQuery};
use kudos_api::api::projects::db::{project_filters, ProjectListingFilter};
use kudos_api::api::projects::models::QueryParams as ProjectQuery;
use kudos_api::api::repositories::db::{repository_filters, RepositoryListingFilter};
use kudos_api::api::repositories::models::QueryParams as RepositoryQuery;
use kudos_api::api::tasks::db::{task_filters, voter_id, TaskListingFilter};
use kudos_api::api::tasks::models::QueryParams as TaskQuery;

fn no_issue_filters() -> IssueQuery {
    IssueQuery {
        slugs: None,
        certified: None,
        purposes: None,
        stack_levels: None,
        technologies: None,
        labels: None,
        language_slugs: None,
        repository_id: None,
        assignee_id: None,
        open: None,
        has_assignee: None,
        issue_closed_at_min: None,
        issue_closed_at_max: None,
        rewards: None,
        certified_or_labels: None,
        types: None,
    }
}

fn no_task_filters() -> TaskQuery {
    TaskQuery {
        repository_id: None,
        labels: None,
        open: None,
        type_: None,
        project_id: None,
        created_by_user_id: None,
        assignee_user_id: None,
        assignee_team_id: None,
        funding_options: None,
        contact: None,
        skills: None,
        bounty: None,
        approved_at: None,
        status: None,
        upvotes: None,
        downvotes: None,
        is_featured: None,
        is_certified: None,
        featured_by_user_id: None,
        issue_created_at: None,
        issue_closed_at: None,
    }
}

#[test]
fn issue_listing_without_parameters_has_no_condition() {
    assert!(issue_filters(no_issue_filters()).is_empty());
}

#[test]
fn issue_listing_conditions_in_order() {
    let mut q = no_issue_filters();
    q.rewards = Some(true);
    q.slugs = Some("a,b".to_string());
    q.has_assignee = Some(false);
    q.labels = Some("bug".to_string());
    q.issue_closed_at_max = Some(42);
    q.certified_or_labels = Some(true);
    q.types = Some("dev".to_string());
    assert_eq!(
        issue_filters(q),
        vec![
            IssueListingFilter::ProjectSlugIn("a,b".to_string()),
            IssueListingFilter::LabelsOverlap("bug".to_string()),
            IssueListingFilter::AssigneeAbsent,
            IssueListingFilter::ClosedAtMost(42),
            IssueListingFilter::ProjectRewards(true),
        ]
    );
}

#[test]
fn leaderboard_listing_conditions() {
    let p = LeaderboardQueryParams {
        slugs: Some("ignored".to_string()),
        certified: Some(true),
        purposes: None,
        stack_levels: None,
        technologies: None,
        labels: None,
        language_slug: Some("rust".to_string()),
        repository_id: None,
        start_date: Some(10),
        close_date: Some(20),
        rewards: None,
        types: None,
    };
    assert_eq!(
        issue_filters(leaderboard_query(p)),
        vec![
            IssueListingFilter::LanguageSlugIn("rust".to_string()),
            IssueListingFilter::Certified(true),
            IssueListingFilter::Open(false),
            IssueListingFilter::AssigneePresent,
            IssueListingFilter::ClosedAtLeast(10),
            IssueListingFilter::ClosedAtMost(20),
        ]
    );
}

#[test]
fn project_listing_conditions() {
    let q = ProjectQuery {
        slugs: None,
        purposes: Some("defi".to_string()),
        stack_levels: Some("backend".to_string()),
        technologies: None,
        rewards: Some(false),
        certified: Some(true),
        labels: Some("x".to_string()),
        open: Some(true),
        certified_or_labels: None,
    };
    assert_eq!(
        project_filters(q.clone(), Some(vec![3, 5])),
        vec![
            ProjectListingFilter::PurposesOverlap("defi".to_string()),
            ProjectListingFilter::StackLevelsOverlap("backend".to_string()),
            ProjectListingFilter::Rewards(false),
            ProjectListingFilter::IdIn(vec![3, 5]),
        ]
    );
    assert_eq!(project_filters(q, None).len(), 3);
}

#[test]
fn repository_listing_conditions() {
    let q = RepositoryQuery {
        slugs: Some("s".to_string()),
        names: None,
        languages: Some("rust,go".to_string()),
        project_ids: Some("1,2".to_string()),
    };
    assert_eq!(
        repository_filters(q),
        vec![
            RepositoryListingFilter::LanguageIn("rust,go".to_string()),
            RepositoryListingFilter::SlugIn("s".to_string()),
            RepositoryListingFilter::ProjectIdIn("1,2".to_string()),
        ]
    );
}

#[test]
fn task_listing_conditions_in_order() {
    let mut q = no_task_filters();
    assert!(task_filters(q.clone()).is_empty());
    q.issue_closed_at = Some(7);
    q.upvotes = Some(3);
    q.repository_id = Some(9);
    q.skills = Some("rust".to_string());
    q.downvotes = Some(1);
    assert_eq!(
        task_filters(q),
        vec![
            TaskListingFilter::RepositoryIs(9),
            TaskListingFilter::SkillsOverlap("rust".to_string()),
            TaskListingFilter::UpvotesAtLeast(3),
            TaskListingFilter::DownvotesAtMost(1),
            TaskListingFilter::IssueClosedAtMost(7),
        ]
    );
}

#[test]
fn anonymous_reader_sees_no_vote() {
    assert_eq!(voter_id(None), -1);
    assert_eq!(voter_id(Some(12)), 12);
}
