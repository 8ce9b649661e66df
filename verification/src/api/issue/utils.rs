//! Reading a GitHub issue reference out of a URL.
use vstd::prelude::*;
use super::errors::IssueError;
use super::models::IssueInfo;
use crate::text::{opt_text, parse_u32, spec_parse_u32, split_char, split_on, str_eq};

verus! {

/// What `url::Url::parse` gives for a string, read through `Url::path`: the path of the URL when
/// the string parses as an absolute URL, `None` when it does not.
pub uninterp spec fn parsed_url_path(s: Seq<char>) -> Option<Seq<char>>;

/// Calls `url::Url::parse` on `s`; on success reads the parsed URL's path with `Url::path`.
/// The path is named by `parsed_url_path`; nothing else is stated of the URL grammar.
#[verifier::external_body]
fn url_path(s: &str) -> (r: Option<String>)
    ensures
        opt_text(r) == parsed_url_path(s@),
{
    match url::Url::parse(s) {
        Ok(u) => Some(u.path().to_owned()),
        Err(_) => None,
    }
}

/// The segments of a URL path as `Url::path_segments` gives them: the pieces between `/` after
/// the leading `/`; `None` for a path that does not start with `/`.
pub open spec fn path_segments_of(path: Seq<char>) -> Option<Seq<Seq<char>>> {
    if path.len() > 0 && path[0] == '/' {
        Some(split_on(path.drop_first(), '/'))
    } else {
        None
    }
}

/// The segments of a URL path, as `Url::path_segments` gives them.
pub fn path_segments(path: &str) -> (r: Option<Vec<String>>)
    ensures
        match r {
            Some(v) => path_segments_of(path@) == Some(v.deep_view()),
            None => path_segments_of(path@) is None,
        },
{
    let n = path.unicode_len();
    if n > 0 && path.get_char(0) == '/' {
        let rest = path.substring_char(1, n);
        assert(rest@ =~= path@.drop_first());
        Some(split_char(rest, '/'))
    } else {
        None
    }
}

/// The issue a list of path segments names: the segments must be at least four, the first
/// `github.com` and the third `issues`; the organization is the second, the repository is
/// taken from the third, and the number is the fourth read as a `u32`.
pub open spec fn issue_reference(segments: Seq<Seq<char>>) -> Option<(Seq<char>, Seq<char>, u32)> {
    if segments.len() >= 4 && segments[0] == "github.com"@ && segments[2] == "issues"@ {
        match spec_parse_u32(segments[3]) {
            Some(n) => Some((segments[1], segments[2], n)),
            None => None,
        }
    } else {
        None
    }
}

/// The issue a URL path names, when its segments name one.
pub open spec fn issue_reference_of_path(path: Option<Seq<char>>) -> Option<(Seq<char>, Seq<char>, u32)> {
    match path {
        Some(p) => match path_segments_of(p) {
            Some(segments) => issue_reference(segments),
            None => None,
        },
        None => None,
    }
}

/// The issue a list of path segments names; `IssueInvalidURL` when it names none.
pub fn issue_info_from_segments(segments: &Vec<String>) -> (r: Result<IssueInfo, IssueError>)
    ensures
        match r {
            Ok(info) => issue_reference(segments.deep_view()) == Some(
                (info.organization@, info.repository@, info.issue_id),
            ),
            Err(e) => issue_reference(segments.deep_view()) is None && e == IssueError::IssueInvalidURL,
        },
{
    let ghost segs = segments.deep_view();
    if segments.len() >= 4 && str_eq(segments[0].as_str(), "github.com") && str_eq(
        segments[2].as_str(),
        "issues",
    ) {
        assert(segs[0] == segments@[0]@ && segs[2] == segments@[2]@);
        let organization = segments[1].clone();
        let repository = segments[2].clone();
        assert(segs[3] == segments@[3]@);
        match parse_u32(segments[3].as_str()) {
            Some(issue_id) => Ok(IssueInfo { organization, repository, issue_id }),
            None => Err(IssueError::IssueInvalidURL),
        }
    } else {
        proof {
            if segments@.len() >= 4 {
                assert(segs[0] == segments@[0]@ && segs[2] == segments@[2]@);
            }
        }
        Err(IssueError::IssueInvalidURL)
    }
}

/// The issue a URL path names, given what parsing the URL gave (`None` when it did not parse);
/// `IssueInvalidURL` when it names none.
pub fn issue_info_from_path(path: Option<String>) -> (r: Result<IssueInfo, IssueError>)
    ensures
        match r {
            Ok(info) => issue_reference_of_path(opt_text(path)) == Some(
                (info.organization@, info.repository@, info.issue_id),
            ),
            Err(e) => issue_reference_of_path(opt_text(path)) is None && e == IssueError::IssueInvalidURL,
        },
{
    match path {
        Some(p) => match path_segments(p.as_str()) {
            Some(segments) => issue_info_from_segments(&segments),
            None => Err(IssueError::IssueInvalidURL),
        },
        None => Err(IssueError::IssueInvalidURL),
    }
}

/// Reads the organization, repository and issue number out of a GitHub issue URL.
pub fn parse_github_issue_url(url_str: &str) -> (r: Result<IssueInfo, IssueError>)
    ensures
        match r {
            Ok(info) => issue_reference_of_path(parsed_url_path(url_str@)) == Some(
                (info.organization@, info.repository@, info.issue_id),
            ),
            Err(e) => issue_reference_of_path(parsed_url_path(url_str@)) is None && e
                == IssueError::IssueInvalidURL,
        },
{
    issue_info_from_path(url_path(url_str))
}

} // verus!

verus! {

/// Every issue reference read from a URL takes its repository from the `issues` segment, so
/// its repository is always `issues`.
pub proof fn lemma_issue_reference_repository(path: Option<Seq<char>>)
    ensures
        issue_reference_of_path(path) matches Some(r) ==> r.1 == "issues"@,
{
}

} // verus!
