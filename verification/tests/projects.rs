use kudos_api::api::projects::db::{options_issue_filter, project_options, IssueFilter};
use kudos_api::api::projects::errors::ProjectError;
use kudos_api::api::projects::handlers::{project_creation_failure, slug_check};
use kudos_api::api::projects::models::{Project, QueryParams};
use kudos_api::api::repositories::db::languages_and_technologies;
use kudos_api::api::repositories::errors::RepositoryError;
use kudos_api::api::repositories::handlers::{repository_page, repository_slug_check};
use kudos_api::api::repositories::models::LanguageQueryParams;
use kudos_api::types::PaginationParams;

fn params(col: Option<bool>, labels: Option<&str>, certified: Option<bool>, open: Option<bool>) -> QueryParams {
    QueryParams {
        slugs: None,
        purposes: None,
        stack_levels: None,
        technologies: None,
        rewards: None,
        certified,
        labels: labels.map(str::to_string),
        open,
        certified_or_labels: col,
    }
}

fn s(x: &str) -> Option<String> {
    Some(x.to_string())
}

#[test]
fn options_filter_cases() {
    assert_eq!(
        options_issue_filter(params(Some(true), Some("a,b"), Some(true), Some(true))),
        Some(IssueFilter::LabelsOrCertified { labels: "a,b".into(), certified: true, open: true })
    );
    assert_eq!(
        options_issue_filter(params(Some(false), Some("a"), Some(false), Some(true))),
        Some(IssueFilter::LabelsAndCertified { labels: "a".into(), certified: false, open: true })
    );
    assert_eq!(
        options_issue_filter(params(None, Some("a"), Some(true), Some(false))),
        Some(IssueFilter::LabelsAndCertified { labels: "a".into(), certified: true, open: false })
    );
    assert_eq!(options_issue_filter(params(Some(true), Some("a"), None, Some(true))), Some(IssueFilter::Labels { labels: "a".into(), open: true }));
    assert_eq!(options_issue_filter(params(None, None, Some(true), Some(true))), Some(IssueFilter::Certified { certified: true, open: true }));
    assert_eq!(options_issue_filter(params(Some(true), None, None, Some(false))), Some(IssueFilter::Open { open: false }));
    assert_eq!(options_issue_filter(params(Some(true), Some("a"), Some(true), None)), None);
}

fn project(types: Option<Vec<Option<String>>>, purposes: Option<Vec<Option<String>>>) -> Project {
    Project {
        id: 1,
        name: "n".into(),
        slug: "s".into(),
        types,
        purposes,
        stack_levels: None,
        technologies: None,
        avatar: None,
        rewards: None,
        created_at: 0,
        updated_at: None,
    }
}

#[test]
fn options_list_each_value_once() {
    let projects = vec![
        project(Some(vec![s("dev"), s("wish"), None]), None),
        project(Some(vec![s("wish"), s("dev")]), Some(vec![s("defi"), None])),
        project(None, Some(vec![None, s("defi"), s("gaming")])),
    ];
    let o = project_options(&projects);
    assert_eq!(o.types, Some(vec![s("dev"), s("wish"), None]));
    assert_eq!(o.purposes, Some(vec![s("defi"), None, s("gaming")]));
    let empty = project_options(&vec![]);
    assert_eq!(empty.types, Some(vec![]));
    assert_eq!(empty.purposes, Some(vec![]));
}

#[test]
fn project_creation_checks() {
    assert_eq!(slug_check(Some(3)), Err(ProjectError::AlreadyExists(3)));
    assert_eq!(slug_check(None), Ok(()));
    assert_eq!(project_creation_failure(), ProjectError::CannotCreate("error creating the project".to_string()));
    assert_eq!(repository_slug_check(Some(4)), Err(RepositoryError::AlreadyExists(4)));
    assert_eq!(repository_slug_check(None), Ok(()));
}

#[test]
fn languages_merge_with_technologies_on_request() {
    let langs = vec!["rust".to_string(), "go".to_string()];
    let techs = vec![Some(vec![s("react"), None, s("rust")]), None, Some(vec![s("react"), s("solidity")])];
    let with = languages_and_technologies(
        langs.clone(),
        &techs,
        &LanguageQueryParams { labels: None, with_technologies: Some(true) },
    );
    assert_eq!(with, vec!["rust", "go", "react", "solidity"]);
    let without = languages_and_technologies(langs, &techs, &LanguageQueryParams { labels: None, with_technologies: None });
    assert_eq!(without, vec!["rust", "go"]);
}

#[test]
fn repository_page_counts_the_page() {
    let p = repository_page(vec![1, 2, 3], &PaginationParams { limit: 2, offset: 0 });
    assert_eq!(p.total_count, Some(3));
    assert!(p.has_next_page);
    assert!(!p.has_previous_page);
    let q = repository_page(vec![1], &PaginationParams { limit: 5, offset: 5 });
    assert!(!q.has_next_page);
    assert!(q.has_previous_page);
}
