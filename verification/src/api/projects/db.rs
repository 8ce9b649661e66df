//! The decisions behind the project listings: which issues restrict the projects offered as
//! options, and which values those projects use.
use vstd::prelude::*;
use super::models::{Project, ProjectOptions, QueryParams};
use crate::dedup::{clone_opt_string, distinct_in_order, distinct_opt_strings};
use crate::filters::{given, lemma_concat_contains, lemma_given_contains, lemma_given_len, present, push_present};
use crate::text::opt_text;

verus! {

/// The condition on issues whose projects the options are drawn from. `labels` is a
/// comma-separated list of labels, any of which an issue may carry.
#[derive(Clone, Debug, PartialEq, Eq)]
pub enum IssueFilter {
    /// Open state as given, and carrying one of the labels or certified as given.
    LabelsOrCertified { labels: String, certified: bool, open: bool },
    /// Open state as given, carrying one of the labels and certified as given.
    LabelsAndCertified { labels: String, certified: bool, open: bool },
    /// Open state as given and carrying one of the labels.
    Labels { labels: String, open: bool },
    /// Open state and certification as given.
    Certified { certified: bool, open: bool },
    /// Open state as given.
    Open { open: bool },
}

/// The issue condition of the project options: none unless the open state is given; then the
/// labels and the certification that are given, joined by "or" when `certified_or_labels` is
/// true and both are given, by "and" otherwise.
pub open spec fn options_issue_filter_of(p: QueryParams) -> Option<IssueFilter> {
    match p.open {
        None => None,
        Some(open) => Some(
            match (p.labels, p.certified) {
                (Some(labels), Some(certified)) => if p.certified_or_labels == Some(true) {
                    IssueFilter::LabelsOrCertified { labels, certified, open }
                } else {
                    IssueFilter::LabelsAndCertified { labels, certified, open }
                },
                (Some(labels), None) => IssueFilter::Labels { labels, open },
                (None, Some(certified)) => IssueFilter::Certified { certified, open },
                (None, None) => IssueFilter::Open { open },
            },
        ),
    }
}

/// The issue condition of the project options.
pub fn options_issue_filter(p: QueryParams) -> (r: Option<IssueFilter>)
    ensures
        r == options_issue_filter_of(p),
{
    match (p.certified_or_labels, p.labels, p.certified, p.open) {
        (Some(true), Some(labels), Some(certified), Some(open)) => Some(
            IssueFilter::LabelsOrCertified { labels, certified, open },
        ),
        (Some(true), Some(labels), None, Some(open)) => Some(IssueFilter::Labels { labels, open }),
        (Some(true), None, Some(certified), Some(open)) => Some(IssueFilter::Certified { certified, open }),
        (Some(true), None, None, Some(open)) => Some(IssueFilter::Open { open }),
        (_, Some(labels), Some(certified), Some(open)) => Some(
            IssueFilter::LabelsAndCertified { labels, certified, open },
        ),
        (_, Some(labels), None, Some(open)) => Some(IssueFilter::Labels { labels, open }),
        (_, None, Some(certified), Some(open)) => Some(IssueFilter::Certified { certified, open }),
        (_, None, None, Some(open)) => Some(IssueFilter::Open { open }),
        _ => None,
    }
}

/// One condition of a project listing. A `String` is a comma-separated list of values.
#[derive(Clone, Debug, PartialEq, Eq)]
pub enum ProjectListingFilter {
    /// The slug is one of the values.
    SlugIn(String),
    /// The project has one of the purposes.
    PurposesOverlap(String),
    /// The project has one of the technologies.
    TechnologiesOverlap(String),
    /// The project has one of the stack levels.
    StackLevelsOverlap(String),
    /// The rewards flag is as given.
    Rewards(bool),
    /// The project is one of these.
    IdIn(Vec<i32>),
}

/// The conditions of a project listing or of the project options, in this order: slugs,
/// purposes, technologies, stack levels, rewards, and the projects of the matching issues when
/// the issues were looked up. The listing looks up the projects of the issues certified as
/// `certified` says, when it says; the options look up those of `options_issue_filter`.
pub open spec fn project_filters_of(p: QueryParams, project_ids: Option<Vec<i32>>) -> Seq<ProjectListingFilter> {
    given(p.slugs, |s: String| ProjectListingFilter::SlugIn(s))
        + given(p.purposes, |s: String| ProjectListingFilter::PurposesOverlap(s))
        + given(p.technologies, |s: String| ProjectListingFilter::TechnologiesOverlap(s))
        + given(p.stack_levels, |s: String| ProjectListingFilter::StackLevelsOverlap(s))
        + given(p.rewards, |b: bool| ProjectListingFilter::Rewards(b))
        + given(project_ids, |ids: Vec<i32>| ProjectListingFilter::IdIn(ids))
}

/// The conditions of a project listing, given the projects of the matching issues if they
/// were looked up.
pub fn project_filters(p: QueryParams, project_ids: Option<Vec<i32>>) -> (r: Vec<ProjectListingFilter>)
    ensures
        r@ == project_filters_of(p, project_ids),
{
    let mut v: Vec<ProjectListingFilter> = Vec::new();
    let c = match p.slugs {
        Some(s) => Some(ProjectListingFilter::SlugIn(s)),
        None => None,
    };
    push_present(&mut v, c);
    assert(v@ =~= given(p.slugs, |s: String| ProjectListingFilter::SlugIn(s)));
    let c = match p.purposes {
        Some(s) => Some(ProjectListingFilter::PurposesOverlap(s)),
        None => None,
    };
    push_present(&mut v, c);
    let c = match p.technologies {
        Some(s) => Some(ProjectListingFilter::TechnologiesOverlap(s)),
        None => None,
    };
    push_present(&mut v, c);
    let c = match p.stack_levels {
        Some(s) => Some(ProjectListingFilter::StackLevelsOverlap(s)),
        None => None,
    };
    push_present(&mut v, c);
    let c = match p.rewards {
        Some(b) => Some(ProjectListingFilter::Rewards(b)),
        None => None,
    };
    push_present(&mut v, c);
    let c = match project_ids {
        Some(ids) => Some(ProjectListingFilter::IdIn(ids)),
        None => None,
    };
    push_present(&mut v, c);
    v
}

/// What makes a condition among the `project_filters_of`: one of their parameters, given.
proof fn lemma_project_filters_membership(p: QueryParams, project_ids: Option<Vec<i32>>, x: ProjectListingFilter)
    ensures
        project_filters_of(p, project_ids).contains(x) <==> {
            ||| (p.slugs matches Some(w) && x == ProjectListingFilter::SlugIn(w))
            ||| (p.purposes matches Some(w) && x == ProjectListingFilter::PurposesOverlap(w))
            ||| (p.technologies matches Some(w) && x == ProjectListingFilter::TechnologiesOverlap(w))
            ||| (p.stack_levels matches Some(w) && x == ProjectListingFilter::StackLevelsOverlap(w))
            ||| (p.rewards matches Some(w) && x == ProjectListingFilter::Rewards(w))
            ||| (project_ids matches Some(w) && x == ProjectListingFilter::IdIn(w))
        },
        project_filters_of(p, project_ids).len() == (if p.slugs is Some { 1int } else { 0int }) + (if p.purposes is Some { 1int } else { 0int }) + (if p.technologies is Some { 1int } else { 0int }) + (if p.stack_levels is Some { 1int } else { 0int }) + (if p.rewards is Some { 1int } else { 0int }) + (if project_ids is Some { 1int } else { 0int }),
{
    let g0 = given(p.slugs, |s: String| ProjectListingFilter::SlugIn(s));
    let g1 = given(p.purposes, |s: String| ProjectListingFilter::PurposesOverlap(s));
    let g2 = given(p.technologies, |s: String| ProjectListingFilter::TechnologiesOverlap(s));
    let g3 = given(p.stack_levels, |s: String| ProjectListingFilter::StackLevelsOverlap(s));
    let g4 = given(p.rewards, |b: bool| ProjectListingFilter::Rewards(b));
    let g5 = given(project_ids, |ids: Vec<i32>| ProjectListingFilter::IdIn(ids));
    let s0 = g0;
    let s1 = s0 + g1;
    let s2 = s1 + g2;
    let s3 = s2 + g3;
    let s4 = s3 + g4;
    let s5 = s4 + g5;
    assert(project_filters_of(p, project_ids) == s5);
    lemma_concat_contains(s4, g5, x);
    lemma_concat_contains(s3, g4, x);
    lemma_concat_contains(s2, g3, x);
    lemma_concat_contains(s1, g2, x);
    lemma_concat_contains(s0, g1, x);
    lemma_given_contains(p.slugs, |s: String| ProjectListingFilter::SlugIn(s), x);
    lemma_given_len(p.slugs, |s: String| ProjectListingFilter::SlugIn(s));
    lemma_given_contains(p.purposes, |s: String| ProjectListingFilter::PurposesOverlap(s), x);
    lemma_given_len(p.purposes, |s: String| ProjectListingFilter::PurposesOverlap(s));
    lemma_given_contains(p.technologies, |s: String| ProjectListingFilter::TechnologiesOverlap(s), x);
    lemma_given_len(p.technologies, |s: String| ProjectListingFilter::TechnologiesOverlap(s));
    lemma_given_contains(p.stack_levels, |s: String| ProjectListingFilter::StackLevelsOverlap(s), x);
    lemma_given_len(p.stack_levels, |s: String| ProjectListingFilter::StackLevelsOverlap(s));
    lemma_given_contains(p.rewards, |b: bool| ProjectListingFilter::Rewards(b), x);
    lemma_given_len(p.rewards, |b: bool| ProjectListingFilter::Rewards(b));
    lemma_given_contains(project_ids, |ids: Vec<i32>| ProjectListingFilter::IdIn(ids), x);
    lemma_given_len(project_ids, |ids: Vec<i32>| ProjectListingFilter::IdIn(ids));
}

/// The number of parameters that are given and make a condition.
pub open spec fn given_project_parameters(p: QueryParams, project_ids: Option<Vec<i32>>) -> int {
    (if p.slugs is Some { 1int } else { 0int }) + (if p.purposes is Some { 1int } else { 0int }) + (if p.technologies is Some { 1int } else { 0int }) + (if p.stack_levels is Some { 1int } else { 0int }) + (if p.rewards is Some { 1int } else { 0int }) + (if project_ids is Some { 1int } else { 0int })
}

/// Each parameter of a project listing restricts the column of its own name, with its own
/// value, and the projects of the matching issues, when looked up, restrict the project ids:
/// a condition is made exactly when its parameter is given with that value, one per parameter.
pub proof fn lemma_project_filters_follow_their_parameters(p: QueryParams, project_ids: Option<Vec<i32>>, s: String, b: bool, ids: Vec<i32>)
    ensures
        project_filters_of(p, project_ids).contains(ProjectListingFilter::SlugIn(s)) <==> p.slugs == Some(s),
        project_filters_of(p, project_ids).contains(ProjectListingFilter::PurposesOverlap(s)) <==> p.purposes == Some(s),
        project_filters_of(p, project_ids).contains(ProjectListingFilter::TechnologiesOverlap(s)) <==> p.technologies == Some(s),
        project_filters_of(p, project_ids).contains(ProjectListingFilter::StackLevelsOverlap(s)) <==> p.stack_levels == Some(s),
        project_filters_of(p, project_ids).contains(ProjectListingFilter::Rewards(b)) <==> p.rewards == Some(b),
        project_filters_of(p, project_ids).contains(ProjectListingFilter::IdIn(ids)) <==> project_ids == Some(ids),
        project_filters_of(p, project_ids).len() == given_project_parameters(p, project_ids),
{
    lemma_project_filters_membership(p, project_ids, ProjectListingFilter::SlugIn(s));
    lemma_project_filters_membership(p, project_ids, ProjectListingFilter::PurposesOverlap(s));
    lemma_project_filters_membership(p, project_ids, ProjectListingFilter::TechnologiesOverlap(s));
    lemma_project_filters_membership(p, project_ids, ProjectListingFilter::StackLevelsOverlap(s));
    lemma_project_filters_membership(p, project_ids, ProjectListingFilter::Rewards(b));
    lemma_project_filters_membership(p, project_ids, ProjectListingFilter::IdIn(ids));
}

/// The values of an optional list, by text.
pub open spec fn list_texts(list: Option<Vec<Option<String>>>) -> Seq<Option<Seq<char>>> {
    match list {
        Some(v) => v@.map_values(|x: Option<String>| opt_text(x)),
        None => Seq::empty(),
    }
}

/// The types of the projects, in order, repeats included.
pub open spec fn all_types(projects: Seq<Project>) -> Seq<Option<Seq<char>>>
    decreases projects.len(),
{
    if projects.len() == 0 {
        Seq::empty()
    } else {
        all_types(projects.drop_last()) + list_texts(projects.last().types)
    }
}

/// The purposes of the projects, in order, repeats included.
pub open spec fn all_purposes(projects: Seq<Project>) -> Seq<Option<Seq<char>>>
    decreases projects.len(),
{
    if projects.len() == 0 {
        Seq::empty()
    } else {
        all_purposes(projects.drop_last()) + list_texts(projects.last().purposes)
    }
}

fn append_list(out: &mut Vec<Option<String>>, list: &Option<Vec<Option<String>>>)
    ensures
        final(out)@.map_values(|x: Option<String>| opt_text(x)) == old(out)@.map_values(
            |x: Option<String>| opt_text(x),
        ) + list_texts(*list),
{
    match list {
        Some(v) => {
            let mut i: usize = 0;
            let ghost start = out@.map_values(|x: Option<String>| opt_text(x));
            while i < v.len()
                invariant
                    i <= v@.len(),
                    out@.map_values(|x: Option<String>| opt_text(x)) == start + v@.take(i as int).map_values(
                        |x: Option<String>| opt_text(x),
                    ),
                decreases v.len() - i,
            {
                let ghost before = out@;
                out.push(clone_opt_string(&v[i]));
                assert(out@ =~= before.push(v@[i as int]));
                assert(v@.take(i + 1) =~= v@.take(i as int).push(v@[i as int]));
                assert(out@.map_values(|x: Option<String>| opt_text(x)) =~= before.map_values(
                    |x: Option<String>| opt_text(x),
                ).push(opt_text(v@[i as int])));
                assert(v@.take(i + 1).map_values(|x: Option<String>| opt_text(x)) =~= v@.take(i as int).map_values(
                    |x: Option<String>| opt_text(x),
                ).push(opt_text(v@[i as int])));
                assert(out@.map_values(|x: Option<String>| opt_text(x)) =~= start + v@.take(i + 1).map_values(
                    |x: Option<String>| opt_text(x),
                ));
                i = i + 1;
            }
            assert(v@.take(v@.len() as int) =~= v@);
        },
        None => {
            assert(out@.map_values(|x: Option<String>| opt_text(x)) =~= out@.map_values(
                |x: Option<String>| opt_text(x),
            ) + Seq::<Option<Seq<char>>>::empty());
        },
    }
}

/// The types and the purposes the projects use, each value once, in the order they first occur.
pub fn project_options(projects: &Vec<Project>) -> (r: ProjectOptions)
    ensures
        r.types matches Some(t) && t@.map_values(|x: Option<String>| opt_text(x)) == distinct_in_order(
            all_types(projects@),
        ),
        r.purposes matches Some(p) && p@.map_values(|x: Option<String>| opt_text(x)) == distinct_in_order(
            all_purposes(projects@),
        ),
{
    let mut types: Vec<Option<String>> = Vec::new();
    let mut purposes: Vec<Option<String>> = Vec::new();
    let mut i: usize = 0;
    assert(types@.map_values(|x: Option<String>| opt_text(x)) =~= Seq::<Option<Seq<char>>>::empty());
    while i < projects.len()
        invariant
            i <= projects@.len(),
            types@.map_values(|x: Option<String>| opt_text(x)) == all_types(projects@.take(i as int)),
            purposes@.map_values(|x: Option<String>| opt_text(x)) == all_purposes(projects@.take(i as int)),
        decreases projects.len() - i,
    {
        assert(projects@.take(i + 1).drop_last() =~= projects@.take(i as int));
        append_list(&mut types, &projects[i].types);
        append_list(&mut purposes, &projects[i].purposes);
        i = i + 1;
    }
    assert(projects@.take(projects@.len() as int) =~= projects@);
    ProjectOptions { types: Some(distinct_opt_strings(&types)), purposes: Some(distinct_opt_strings(&purposes)) }
}

} // verus!
