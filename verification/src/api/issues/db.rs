//! The conditions an issue listing applies to the issues, joined with their repositories,
//! projects and assignees.
use vstd::prelude::*;
use super::models::QueryParams;
use crate::filters::{given, lemma_concat_contains, lemma_given_contains, lemma_given_len, present, push_present};

verus! {

/// One condition of an issue listing. A `String` of an `...In` or `...Overlap` condition is a
/// comma-separated list of values.
#[derive(Clone, Debug, PartialEq, Eq)]
pub enum IssueListingFilter {
    /// The project's slug is one of the values.
    ProjectSlugIn(String),
    /// The project has one of the purposes.
    ProjectPurposesOverlap(String),
    /// The project has one of the stack levels.
    ProjectStackLevelsOverlap(String),
    /// The project has one of the technologies.
    ProjectTechnologiesOverlap(String),
    /// The repository's language is one of the values.
    LanguageSlugIn(String),
    /// The issue carries one of the labels.
    LabelsOverlap(String),
    /// The issue's certification is as given.
    Certified(bool),
    /// The issue's open state is as given.
    Open(bool),
    /// The issue is assigned to this user.
    AssigneeIs(i32),
    /// The issue belongs to this repository.
    RepositoryIs(i32),
    /// The issue has an assignee.
    AssigneePresent,
    /// The issue has no assignee.
    AssigneeAbsent,
    /// The issue was closed at or after this time.
    ClosedAtLeast(i64),
    /// The issue was closed at or before this time.
    ClosedAtMost(i64),
    /// The project's rewards flag is as given.
    ProjectRewards(bool),
}

/// The conditions of an issue listing, in this order: project slugs, purposes, stack levels
/// and technologies, languages, labels, certification, open state, assignee, repository,
/// presence of an assignee, earliest and latest closing time, rewards. The `certified_or_labels`
/// and `types` parameters add none.
pub open spec fn issue_filters_of(p: QueryParams) -> Seq<IssueListingFilter> {
    given(p.slugs, |s: String| IssueListingFilter::ProjectSlugIn(s))
        + given(p.purposes, |s: String| IssueListingFilter::ProjectPurposesOverlap(s))
        + given(p.stack_levels, |s: String| IssueListingFilter::ProjectStackLevelsOverlap(s))
        + given(p.technologies, |s: String| IssueListingFilter::ProjectTechnologiesOverlap(s))
        + given(p.language_slugs, |s: String| IssueListingFilter::LanguageSlugIn(s))
        + given(p.labels, |s: String| IssueListingFilter::LabelsOverlap(s))
        + given(p.certified, |b: bool| IssueListingFilter::Certified(b))
        + given(p.open, |b: bool| IssueListingFilter::Open(b))
        + given(p.assignee_id, |i: i32| IssueListingFilter::AssigneeIs(i))
        + given(p.repository_id, |i: i32| IssueListingFilter::RepositoryIs(i))
        + given(
            p.has_assignee,
            |b: bool|
                if b {
                    IssueListingFilter::AssigneePresent
                } else {
                    IssueListingFilter::AssigneeAbsent
                },
        )
        + given(p.issue_closed_at_min, |t: i64| IssueListingFilter::ClosedAtLeast(t))
        + given(p.issue_closed_at_max, |t: i64| IssueListingFilter::ClosedAtMost(t))
        + given(p.rewards, |b: bool| IssueListingFilter::ProjectRewards(b))
}

/// The conditions of an issue listing.
pub fn issue_filters(p: QueryParams) -> (r: Vec<IssueListingFilter>)
    ensures
        r@ == issue_filters_of(p),
{
    let ghost p0 = p;
    let mut v: Vec<IssueListingFilter> = Vec::new();
    let c = match p.slugs {
        Some(s) => Some(IssueListingFilter::ProjectSlugIn(s)),
        None => None,
    };
    push_present(&mut v, c);
    assert(v@ =~= given(p0.slugs, |s: String| IssueListingFilter::ProjectSlugIn(s)));
    let c = match p.purposes {
        Some(s) => Some(IssueListingFilter::ProjectPurposesOverlap(s)),
        None => None,
    };
    push_present(&mut v, c);
    let c = match p.stack_levels {
        Some(s) => Some(IssueListingFilter::ProjectStackLevelsOverlap(s)),
        None => None,
    };
    push_present(&mut v, c);
    let c = match p.technologies {
        Some(s) => Some(IssueListingFilter::ProjectTechnologiesOverlap(s)),
        None => None,
    };
    push_present(&mut v, c);
    let c = match p.language_slugs {
        Some(s) => Some(IssueListingFilter::LanguageSlugIn(s)),
        None => None,
    };
    push_present(&mut v, c);
    let c = match p.labels {
        Some(s) => Some(IssueListingFilter::LabelsOverlap(s)),
        None => None,
    };
    push_present(&mut v, c);
    let c = match p.certified {
        Some(b) => Some(IssueListingFilter::Certified(b)),
        None => None,
    };
    push_present(&mut v, c);
    let c = match p.open {
        Some(b) => Some(IssueListingFilter::Open(b)),
        None => None,
    };
    push_present(&mut v, c);
    let c = match p.assignee_id {
        Some(i) => Some(IssueListingFilter::AssigneeIs(i)),
        None => None,
    };
    push_present(&mut v, c);
    let c = match p.repository_id {
        Some(i) => Some(IssueListingFilter::RepositoryIs(i)),
        None => None,
    };
    push_present(&mut v, c);
    let c = match p.has_assignee {
        Some(b) => Some(if b { IssueListingFilter::AssigneePresent } else { IssueListingFilter::AssigneeAbsent }),
        None => None,
    };
    push_present(&mut v, c);
    let c = match p.issue_closed_at_min {
        Some(t) => Some(IssueListingFilter::ClosedAtLeast(t)),
        None => None,
    };
    push_present(&mut v, c);
    let c = match p.issue_closed_at_max {
        Some(t) => Some(IssueListingFilter::ClosedAtMost(t)),
        None => None,
    };
    push_present(&mut v, c);
    let c = match p.rewards {
        Some(b) => Some(IssueListingFilter::ProjectRewards(b)),
        None => None,
    };
    push_present(&mut v, c);
    v
}

/// The number of parameters of an issue listing that are given, counting only those that
/// make a condition.
pub open spec fn given_issue_parameters(p: QueryParams) -> int {
    (if p.slugs is Some { 1int } else { 0int }) + (if p.purposes is Some { 1int } else { 0int })
        + (if p.stack_levels is Some { 1int } else { 0int }) + (if p.technologies is Some { 1int } else { 0int })
        + (if p.language_slugs is Some { 1int } else { 0int }) + (if p.labels is Some { 1int } else { 0int })
        + (if p.certified is Some { 1int } else { 0int }) + (if p.open is Some { 1int } else { 0int })
        + (if p.assignee_id is Some { 1int } else { 0int }) + (if p.repository_id is Some { 1int } else { 0int })
        + (if p.has_assignee is Some { 1int } else { 0int })
        + (if p.issue_closed_at_min is Some { 1int } else { 0int })
        + (if p.issue_closed_at_max is Some { 1int } else { 0int }) + (if p.rewards is Some { 1int } else { 0int })
}

/// What makes a condition of an issue listing: one of its parameters, given.
proof fn lemma_issue_filter_membership(p: QueryParams, x: IssueListingFilter)
    ensures
        issue_filters_of(p).contains(x) <==> {
            ||| (p.slugs matches Some(v) && x == IssueListingFilter::ProjectSlugIn(v))
            ||| (p.purposes matches Some(v) && x == IssueListingFilter::ProjectPurposesOverlap(v))
            ||| (p.stack_levels matches Some(v) && x == IssueListingFilter::ProjectStackLevelsOverlap(v))
            ||| (p.technologies matches Some(v) && x == IssueListingFilter::ProjectTechnologiesOverlap(v))
            ||| (p.language_slugs matches Some(v) && x == IssueListingFilter::LanguageSlugIn(v))
            ||| (p.labels matches Some(v) && x == IssueListingFilter::LabelsOverlap(v))
            ||| (p.certified matches Some(v) && x == IssueListingFilter::Certified(v))
            ||| (p.open matches Some(v) && x == IssueListingFilter::Open(v))
            ||| (p.assignee_id matches Some(v) && x == IssueListingFilter::AssigneeIs(v))
            ||| (p.repository_id matches Some(v) && x == IssueListingFilter::RepositoryIs(v))
            ||| (p.has_assignee == Some(true) && x == IssueListingFilter::AssigneePresent)
            ||| (p.has_assignee == Some(false) && x == IssueListingFilter::AssigneeAbsent)
            ||| (p.issue_closed_at_min matches Some(v) && x == IssueListingFilter::ClosedAtLeast(v))
            ||| (p.issue_closed_at_max matches Some(v) && x == IssueListingFilter::ClosedAtMost(v))
            ||| (p.rewards matches Some(v) && x == IssueListingFilter::ProjectRewards(v))
        },
        issue_filters_of(p).len() == given_issue_parameters(p),
{
    let g0 = given(p.slugs, |s: String| IssueListingFilter::ProjectSlugIn(s));
    let g1 = given(p.purposes, |s: String| IssueListingFilter::ProjectPurposesOverlap(s));
    let g2 = given(p.stack_levels, |s: String| IssueListingFilter::ProjectStackLevelsOverlap(s));
    let g3 = given(p.technologies, |s: String| IssueListingFilter::ProjectTechnologiesOverlap(s));
    let g4 = given(p.language_slugs, |s: String| IssueListingFilter::LanguageSlugIn(s));
    let g5 = given(p.labels, |s: String| IssueListingFilter::LabelsOverlap(s));
    let g6 = given(p.certified, |b: bool| IssueListingFilter::Certified(b));
    let g7 = given(p.open, |b: bool| IssueListingFilter::Open(b));
    let g8 = given(p.assignee_id, |i: i32| IssueListingFilter::AssigneeIs(i));
    let g9 = given(p.repository_id, |i: i32| IssueListingFilter::RepositoryIs(i));
    let g10 = given(
            p.has_assignee,
            |b: bool|
                if b {
                    IssueListingFilter::AssigneePresent
                } else {
                    IssueListingFilter::AssigneeAbsent
                },
        );
    let g11 = given(p.issue_closed_at_min, |t: i64| IssueListingFilter::ClosedAtLeast(t));
    let g12 = given(p.issue_closed_at_max, |t: i64| IssueListingFilter::ClosedAtMost(t));
    let g13 = given(p.rewards, |b: bool| IssueListingFilter::ProjectRewards(b));
    let s0 = g0;
    let s1 = s0 + g1;
    let s2 = s1 + g2;
    let s3 = s2 + g3;
    let s4 = s3 + g4;
    let s5 = s4 + g5;
    let s6 = s5 + g6;
    let s7 = s6 + g7;
    let s8 = s7 + g8;
    let s9 = s8 + g9;
    let s10 = s9 + g10;
    let s11 = s10 + g11;
    let s12 = s11 + g12;
    let s13 = s12 + g13;
    assert(issue_filters_of(p) == s13);
    lemma_concat_contains(s12, g13, x);
    lemma_concat_contains(s11, g12, x);
    lemma_concat_contains(s10, g11, x);
    lemma_concat_contains(s9, g10, x);
    lemma_concat_contains(s8, g9, x);
    lemma_concat_contains(s7, g8, x);
    lemma_concat_contains(s6, g7, x);
    lemma_concat_contains(s5, g6, x);
    lemma_concat_contains(s4, g5, x);
    lemma_concat_contains(s3, g4, x);
    lemma_concat_contains(s2, g3, x);
    lemma_concat_contains(s1, g2, x);
    lemma_concat_contains(s0, g1, x);
    lemma_given_contains(p.slugs, |s: String| IssueListingFilter::ProjectSlugIn(s), x);
    lemma_given_len(p.slugs, |s: String| IssueListingFilter::ProjectSlugIn(s));
    lemma_given_contains(p.purposes, |s: String| IssueListingFilter::ProjectPurposesOverlap(s), x);
    lemma_given_len(p.purposes, |s: String| IssueListingFilter::ProjectPurposesOverlap(s));
    lemma_given_contains(p.stack_levels, |s: String| IssueListingFilter::ProjectStackLevelsOverlap(s), x);
    lemma_given_len(p.stack_levels, |s: String| IssueListingFilter::ProjectStackLevelsOverlap(s));
    lemma_given_contains(p.technologies, |s: String| IssueListingFilter::ProjectTechnologiesOverlap(s), x);
    lemma_given_len(p.technologies, |s: String| IssueListingFilter::ProjectTechnologiesOverlap(s));
    lemma_given_contains(p.language_slugs, |s: String| IssueListingFilter::LanguageSlugIn(s), x);
    lemma_given_len(p.language_slugs, |s: String| IssueListingFilter::LanguageSlugIn(s));
    lemma_given_contains(p.labels, |s: String| IssueListingFilter::LabelsOverlap(s), x);
    lemma_given_len(p.labels, |s: String| IssueListingFilter::LabelsOverlap(s));
    lemma_given_contains(p.certified, |b: bool| IssueListingFilter::Certified(b), x);
    lemma_given_len(p.certified, |b: bool| IssueListingFilter::Certified(b));
    lemma_given_contains(p.open, |b: bool| IssueListingFilter::Open(b), x);
    lemma_given_len(p.open, |b: bool| IssueListingFilter::Open(b));
    lemma_given_contains(p.assignee_id, |i: i32| IssueListingFilter::AssigneeIs(i), x);
    lemma_given_len(p.assignee_id, |i: i32| IssueListingFilter::AssigneeIs(i));
    lemma_given_contains(p.repository_id, |i: i32| IssueListingFilter::RepositoryIs(i), x);
    lemma_given_len(p.repository_id, |i: i32| IssueListingFilter::RepositoryIs(i));
    lemma_given_contains(p.has_assignee, |b: bool| if b { IssueListingFilter::AssigneePresent } else { IssueListingFilter::AssigneeAbsent }, x);
    lemma_given_len(p.has_assignee, |b: bool| if b { IssueListingFilter::AssigneePresent } else { IssueListingFilter::AssigneeAbsent });
    lemma_given_contains(p.issue_closed_at_min, |t: i64| IssueListingFilter::ClosedAtLeast(t), x);
    lemma_given_len(p.issue_closed_at_min, |t: i64| IssueListingFilter::ClosedAtLeast(t));
    lemma_given_contains(p.issue_closed_at_max, |t: i64| IssueListingFilter::ClosedAtMost(t), x);
    lemma_given_len(p.issue_closed_at_max, |t: i64| IssueListingFilter::ClosedAtMost(t));
    lemma_given_contains(p.rewards, |b: bool| IssueListingFilter::ProjectRewards(b), x);
    lemma_given_len(p.rewards, |b: bool| IssueListingFilter::ProjectRewards(b));
}

/// Each parameter of an issue listing restricts the column of its own name, with its own value:
/// a condition is made exactly when its parameter is given with that value, and there is one
/// condition per parameter given.
pub proof fn lemma_issue_filters_follow_their_parameters(p: QueryParams, s: String, b: bool, i: i32, t: i64)
    ensures
        issue_filters_of(p).contains(IssueListingFilter::ProjectSlugIn(s)) <==> p.slugs == Some(s),
        issue_filters_of(p).contains(IssueListingFilter::ProjectPurposesOverlap(s)) <==> p.purposes == Some(s),
        issue_filters_of(p).contains(IssueListingFilter::ProjectStackLevelsOverlap(s)) <==> p.stack_levels == Some(s),
        issue_filters_of(p).contains(IssueListingFilter::ProjectTechnologiesOverlap(s)) <==> p.technologies == Some(s),
        issue_filters_of(p).contains(IssueListingFilter::LanguageSlugIn(s)) <==> p.language_slugs == Some(s),
        issue_filters_of(p).contains(IssueListingFilter::LabelsOverlap(s)) <==> p.labels == Some(s),
        issue_filters_of(p).contains(IssueListingFilter::Certified(b)) <==> p.certified == Some(b),
        issue_filters_of(p).contains(IssueListingFilter::Open(b)) <==> p.open == Some(b),
        issue_filters_of(p).contains(IssueListingFilter::AssigneeIs(i)) <==> p.assignee_id == Some(i),
        issue_filters_of(p).contains(IssueListingFilter::RepositoryIs(i)) <==> p.repository_id == Some(i),
        issue_filters_of(p).contains(IssueListingFilter::AssigneePresent) <==> p.has_assignee == Some(true),
        issue_filters_of(p).contains(IssueListingFilter::AssigneeAbsent) <==> p.has_assignee == Some(false),
        issue_filters_of(p).contains(IssueListingFilter::ClosedAtLeast(t)) <==> p.issue_closed_at_min == Some(t),
        issue_filters_of(p).contains(IssueListingFilter::ClosedAtMost(t)) <==> p.issue_closed_at_max == Some(t),
        issue_filters_of(p).contains(IssueListingFilter::ProjectRewards(b)) <==> p.rewards == Some(b),
        issue_filters_of(p).len() == given_issue_parameters(p),
{
    lemma_issue_filter_membership(p, IssueListingFilter::ProjectSlugIn(s));
    lemma_issue_filter_membership(p, IssueListingFilter::ProjectPurposesOverlap(s));
    lemma_issue_filter_membership(p, IssueListingFilter::ProjectStackLevelsOverlap(s));
    lemma_issue_filter_membership(p, IssueListingFilter::ProjectTechnologiesOverlap(s));
    lemma_issue_filter_membership(p, IssueListingFilter::LanguageSlugIn(s));
    lemma_issue_filter_membership(p, IssueListingFilter::LabelsOverlap(s));
    lemma_issue_filter_membership(p, IssueListingFilter::Certified(b));
    lemma_issue_filter_membership(p, IssueListingFilter::Open(b));
    lemma_issue_filter_membership(p, IssueListingFilter::AssigneeIs(i));
    lemma_issue_filter_membership(p, IssueListingFilter::RepositoryIs(i));
    lemma_issue_filter_membership(p, IssueListingFilter::AssigneePresent);
    lemma_issue_filter_membership(p, IssueListingFilter::AssigneeAbsent);
    lemma_issue_filter_membership(p, IssueListingFilter::ClosedAtLeast(t));
    lemma_issue_filter_membership(p, IssueListingFilter::ClosedAtMost(t));
    lemma_issue_filter_membership(p, IssueListingFilter::ProjectRewards(b));
}

} // verus!
