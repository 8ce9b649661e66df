//! The conditions of a repository listing, and the language listing: the languages of the
//! repositories that have issues, and, on request, the technologies of their projects.
use vstd::prelude::*;
use super::models::{LanguageQueryParams, QueryParams};
use crate::dedup::{distinct_in_order, distinct_strings};
use crate::filters::{given, lemma_concat_contains, lemma_given_contains, lemma_given_len, present, push_present};

verus! {

/// One condition of a repository listing. Each `String` is a comma-separated list of values.
#[derive(Clone, Debug, PartialEq, Eq)]
pub enum RepositoryListingFilter {
    /// The language is one of the values.
    LanguageIn(String),
    /// The slug is one of the values.
    SlugIn(String),
    /// The name is one of the values.
    NameIn(String),
    /// The project is one of the ids of the list; a list that holds no id restricts nothing.
    ProjectIdIn(String),
}

/// The conditions of a repository listing, in this order: languages, slugs, names, projects.
pub open spec fn repository_filters_of(p: QueryParams) -> Seq<RepositoryListingFilter> {
    given(p.languages, |s: String| RepositoryListingFilter::LanguageIn(s))
        + given(p.slugs, |s: String| RepositoryListingFilter::SlugIn(s))
        + given(p.names, |s: String| RepositoryListingFilter::NameIn(s))
        + given(p.project_ids, |s: String| RepositoryListingFilter::ProjectIdIn(s))
}

/// The conditions of a repository listing.
pub fn repository_filters(p: QueryParams) -> (r: Vec<RepositoryListingFilter>)
    ensures
        r@ == repository_filters_of(p),
{
    let ghost p0 = p;
    let mut v: Vec<RepositoryListingFilter> = Vec::new();
    let c = match p.languages {
        Some(s) => Some(RepositoryListingFilter::LanguageIn(s)),
        None => None,
    };
    push_present(&mut v, c);
    assert(v@ =~= given(p0.languages, |s: String| RepositoryListingFilter::LanguageIn(s)));
    let c = match p.slugs {
        Some(s) => Some(RepositoryListingFilter::SlugIn(s)),
        None => None,
    };
    push_present(&mut v, c);
    let c = match p.names {
        Some(s) => Some(RepositoryListingFilter::NameIn(s)),
        None => None,
    };
    push_present(&mut v, c);
    let c = match p.project_ids {
        Some(s) => Some(RepositoryListingFilter::ProjectIdIn(s)),
        None => None,
    };
    push_present(&mut v, c);
    v
}

/// What makes a condition among the `repository_filters_of`: one of their parameters, given.
proof fn lemma_repository_filters_membership(p: QueryParams, x: RepositoryListingFilter)
    ensures
        repository_filters_of(p).contains(x) <==> {
            ||| (p.languages matches Some(w) && x == RepositoryListingFilter::LanguageIn(w))
            ||| (p.slugs matches Some(w) && x == RepositoryListingFilter::SlugIn(w))
            ||| (p.names matches Some(w) && x == RepositoryListingFilter::NameIn(w))
            ||| (p.project_ids matches Some(w) && x == RepositoryListingFilter::ProjectIdIn(w))
        },
        repository_filters_of(p).len() == (if p.languages is Some { 1int } else { 0int }) + (if p.slugs is Some { 1int } else { 0int }) + (if p.names is Some { 1int } else { 0int }) + (if p.project_ids is Some { 1int } else { 0int }),
{
    let g0 = given(p.languages, |s: String| RepositoryListingFilter::LanguageIn(s));
    let g1 = given(p.slugs, |s: String| RepositoryListingFilter::SlugIn(s));
    let g2 = given(p.names, |s: String| RepositoryListingFilter::NameIn(s));
    let g3 = given(p.project_ids, |s: String| RepositoryListingFilter::ProjectIdIn(s));
    let s0 = g0;
    let s1 = s0 + g1;
    let s2 = s1 + g2;
    let s3 = s2 + g3;
    assert(repository_filters_of(p) == s3);
    lemma_concat_contains(s2, g3, x);
    lemma_concat_contains(s1, g2, x);
    lemma_concat_contains(s0, g1, x);
    lemma_given_contains(p.languages, |s: String| RepositoryListingFilter::LanguageIn(s), x);
    lemma_given_len(p.languages, |s: String| RepositoryListingFilter::LanguageIn(s));
    lemma_given_contains(p.slugs, |s: String| RepositoryListingFilter::SlugIn(s), x);
    lemma_given_len(p.slugs, |s: String| RepositoryListingFilter::SlugIn(s));
    lemma_given_contains(p.names, |s: String| RepositoryListingFilter::NameIn(s), x);
    lemma_given_len(p.names, |s: String| RepositoryListingFilter::NameIn(s));
    lemma_given_contains(p.project_ids, |s: String| RepositoryListingFilter::ProjectIdIn(s), x);
    lemma_given_len(p.project_ids, |s: String| RepositoryListingFilter::ProjectIdIn(s));
}

/// The number of parameters that are given and make a condition.
pub open spec fn given_repository_parameters(p: QueryParams) -> int {
    (if p.languages is Some { 1int } else { 0int }) + (if p.slugs is Some { 1int } else { 0int }) + (if p.names is Some { 1int } else { 0int }) + (if p.project_ids is Some { 1int } else { 0int })
}

/// Each parameter of a repository listing restricts the column of its own name, with its own
/// value: a condition is made exactly when its parameter is given with that value, one per
/// parameter.
pub proof fn lemma_repository_filters_follow_their_parameters(p: QueryParams, s: String)
    ensures
        repository_filters_of(p).contains(RepositoryListingFilter::LanguageIn(s)) <==> p.languages == Some(s),
        repository_filters_of(p).contains(RepositoryListingFilter::SlugIn(s)) <==> p.slugs == Some(s),
        repository_filters_of(p).contains(RepositoryListingFilter::NameIn(s)) <==> p.names == Some(s),
        repository_filters_of(p).contains(RepositoryListingFilter::ProjectIdIn(s)) <==> p.project_ids == Some(s),
        repository_filters_of(p).len() == given_repository_parameters(p),
{
    lemma_repository_filters_membership(p, RepositoryListingFilter::LanguageIn(s));
    lemma_repository_filters_membership(p, RepositoryListingFilter::SlugIn(s));
    lemma_repository_filters_membership(p, RepositoryListingFilter::NameIn(s));
    lemma_repository_filters_membership(p, RepositoryListingFilter::ProjectIdIn(s));
}

/// The technologies named in the lists read for the projects, in order, repeats included;
/// absent lists and absent entries name nothing.
pub open spec fn named_technologies(lists: Seq<Option<Vec<Option<String>>>>) -> Seq<Seq<char>>
    decreases lists.len(),
{
    if lists.len() == 0 {
        Seq::empty()
    } else {
        named_technologies(lists.drop_last()) + match lists.last() {
            Some(v) => named_in(v@),
            None => Seq::empty(),
        }
    }
}

/// The names present in a list of optional names, in order.
pub open spec fn named_in(list: Seq<Option<String>>) -> Seq<Seq<char>>
    decreases list.len(),
{
    if list.len() == 0 {
        Seq::empty()
    } else {
        named_in(list.drop_last()) + match list.last() {
            Some(s) => seq![s@],
            None => Seq::<Seq<char>>::empty(),
        }
    }
}

/// The language listing: the languages, followed by the named technologies when they are asked
/// for, each name once, in the order they first occur.
pub open spec fn language_listing(
    languages: Seq<Seq<char>>,
    technologies: Seq<Option<Vec<Option<String>>>>,
    with_technologies: bool,
) -> Seq<Seq<char>> {
    distinct_in_order(languages + if with_technologies { named_technologies(technologies) } else { Seq::empty() })
}

fn push_named(out: &mut Vec<String>, list: &Vec<Option<String>>)
    ensures
        final(out).deep_view() == old(out).deep_view() + named_in(list@),
{
    let ghost start = out.deep_view();
    let mut i: usize = 0;
    while i < list.len()
        invariant
            i <= list@.len(),
            out.deep_view() == start + named_in(list@.take(i as int)),
        decreases list.len() - i,
    {
        assert(list@.take(i + 1).drop_last() =~= list@.take(i as int));
        assert(list@.take(i + 1).last() == list@[i as int]);
        let ghost before = out.deep_view();
        match &list[i] {
            Some(s) => {
                out.push(s.clone());
                assert(out.deep_view() =~= before + seq![s@]);
            },
            None => {
                assert(before =~= before + Seq::<Seq<char>>::empty());
            },
        }
        assert(out.deep_view() =~= start + named_in(list@.take(i + 1)));
        i = i + 1;
    }
    assert(list@.take(list@.len() as int) =~= list@);
}

/// The language listing, given the languages of the repositories with issues and the technology
/// lists of their projects.
pub fn languages_and_technologies(
    languages: Vec<String>,
    technologies: &Vec<Option<Vec<Option<String>>>>,
    params: &LanguageQueryParams,
) -> (r: Vec<String>)
    ensures
        r.deep_view() == language_listing(
            languages.deep_view(),
            technologies@,
            params.with_technologies == Some(true),
        ),
{
    let mut all = languages;
    let ghost langs = all.deep_view();
    let with_technologies = match params.with_technologies {
        Some(b) => b,
        None => false,
    };
    if with_technologies {
        let mut i: usize = 0;
        while i < technologies.len()
            invariant
                i <= technologies@.len(),
                all.deep_view() == langs + named_technologies(technologies@.take(i as int)),
            decreases technologies.len() - i,
        {
            assert(technologies@.take(i + 1).drop_last() =~= technologies@.take(i as int));
            assert(technologies@.take(i + 1).last() == technologies@[i as int]);
            let ghost before = all.deep_view();
            match &technologies[i] {
                Some(list) => push_named(&mut all, list),
                None => {},
            }
            assert(all.deep_view() =~= langs + named_technologies(technologies@.take(i + 1)));
            i = i + 1;
        }
        assert(technologies@.take(technologies@.len() as int) =~= technologies@);
    } else {
        assert(all.deep_view() =~= langs + Seq::<Seq<char>>::empty());
    }
    distinct_strings(&all)
}

} // verus!
