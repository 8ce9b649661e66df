use kudos_api::api::issue::errors::IssueError;
use kudos_api::api::issue::models::IssueInfo;
use kudos_api::api::issue::utils::{issue_info_from_path, parse_github_issue_url, path_segments};

#[test]
fn url_whose_path_starts_with_github_com() {
    let info = parse_github_issue_url("https://example.com/github.com/kudos/issues/42").unwrap();
    assert_eq!(
        info,
        IssueInfo { organization: "kudos".to_string(), repository: "issues".to_string(), issue_id: 42 }
    );
}

#[test]
fn ordinary_github_url_is_refused() {
    assert_eq!(parse_github_issue_url("https://github.com/org/repo/issues/7"), Err(IssueError::IssueInvalidURL));
}

#[test]
fn unparsable_url_is_refused() {
    assert_eq!(parse_github_issue_url("not a url"), Err(IssueError::IssueInvalidURL));
    assert_eq!(parse_github_issue_url(""), Err(IssueError::IssueInvalidURL));
}

#[test]
fn issue_number_must_be_a_u32() {
    assert_eq!(
        parse_github_issue_url("https://h/github.com/o/issues/4294967296"),
        Err(IssueError::IssueInvalidURL)
    );
    assert_eq!(parse_github_issue_url("https://h/github.com/o/issues/x1"), Err(IssueError::IssueInvalidURL));
    assert_eq!(
        parse_github_issue_url("https://h/github.com/o/issues/4294967295/more").map(|i| i.issue_id),
        Ok(4294967295)
    );
}

#[test]
fn path_segments_split_after_the_leading_slash() {
    assert_eq!(path_segments("/a/b/"), Some(vec!["a".to_string(), "b".to_string(), String::new()]));
    assert_eq!(path_segments("/"), Some(vec![String::new()]));
    assert_eq!(path_segments("a/b"), None);
    assert_eq!(path_segments(""), None);
}

#[test]
fn issue_from_path() {
    assert_eq!(issue_info_from_path(None), Err(IssueError::IssueInvalidURL));
    assert_eq!(
        issue_info_from_path(Some("/github.com/o/issues/+7".to_string())).map(|i| i.issue_id),
        Ok(7)
    );
    assert_eq!(issue_info_from_path(Some("/github.com/o/pulls/7".to_string())), Err(IssueError::IssueInvalidURL));
}
