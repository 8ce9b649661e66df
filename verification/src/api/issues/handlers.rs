//! The decisions of the issue endpoints, and the leaderboard of closed issues.
use vstd::prelude::*;
use super::db::{IssueListingFilter, issue_filters_of, lemma_issue_filters_follow_their_parameters};
use super::errors::IssueError;
use super::models::{IssueResponse, LeaderboardEntry, LeaderboardQueryParams, QueryParams, UpdateIssue};
use crate::dedup::{clone_opt_string, distinct_in_order, find_opt_string, lemma_distinct_in_order_no_duplicates};
use crate::text::{has_substring, opt_text, str_contains};

verus! {

/// The database constraint that an issue is not closed before it was opened.
pub const CLOSED_AT_CONSTRAINT: &'static str = "issue_closed_at_check";

/// Accepts a change that sets at least one field; refuses an empty one.
pub fn check_issue_update(update: &UpdateIssue) -> (r: Result<(), IssueError>)
    ensures
        r is Ok <==> update.spec_has_any_field(),
        r is Err ==> (r matches Err(IssueError::InvalidPayload(m)) && m@ == "all the fields are empty"@),
{
    if !update.has_any_field() {
        Err(IssueError::InvalidPayload("all the fields are empty".to_owned()))
    } else {
        Ok(())
    }
}

/// The answer to a change the database refused, given the database's error text: a bad
/// payload when the closing time would precede the opening time, otherwise a generic failure.
pub fn issue_update_failure(error_text: &str) -> (r: IssueError)
    ensures
        has_substring(error_text@, CLOSED_AT_CONSTRAINT@) ==> (r matches IssueError::InvalidPayload(m)
            && m@ == "issue_closed_at is lower than issue_created_at"@),
        !has_substring(error_text@, CLOSED_AT_CONSTRAINT@) ==> (r matches IssueError::CannotUpdate(m)
            && m@ == "error updating the issue"@),
{
    if str_contains(error_text, CLOSED_AT_CONSTRAINT) {
        IssueError::InvalidPayload("issue_closed_at is lower than issue_created_at".to_owned())
    } else {
        IssueError::CannotUpdate("error updating the issue".to_owned())
    }
}

/// Whether a new issue may go on, given the lookup of its repository: a failed lookup and a
/// missing repository stop it.
pub fn repository_lookup_outcome<E>(lookup: Result<bool, E>, repository_id: i32) -> (r: Result<(), IssueError>)
    ensures
        lookup matches Ok(true) ==> r is Ok,
        lookup matches Ok(false) ==> r == Err::<(), IssueError>(IssueError::RepositoryNotFound(repository_id)),
        lookup is Err ==> (r matches Err(IssueError::CannotCreate(m)) && m@
            == "cannot check if the repository is valid"@),
{
    match lookup {
        Ok(true) => Ok(()),
        Ok(false) => Err(IssueError::RepositoryNotFound(repository_id)),
        Err(_) => Err(IssueError::CannotCreate("cannot check if the repository is valid".to_owned())),
    }
}

/// Whether a new issue may go on, given the number of an issue of the same repository and
/// number already stored, if any.
pub fn existing_issue_outcome(existing_number: Option<i32>) -> (r: Result<(), IssueError>)
    ensures
        existing_number matches Some(n) ==> r == Err::<(), IssueError>(IssueError::AlreadyExists(n)),
        existing_number is None ==> r is Ok,
{
    match existing_number {
        Some(n) => Err(IssueError::AlreadyExists(n)),
        None => Ok(()),
    }
}

/// The answer to a new issue the database refused.
pub fn issue_creation_failure() -> (r: IssueError)
    ensures
        r matches IssueError::CannotCreate(m) && m@ == "error creating the issue"@,
{
    IssueError::CannotCreate("error creating the issue".to_owned())
}

/// The change that assigns an issue to the user found for the requested name; a name that
/// matches no user is refused.
pub fn assignee_update(user_id: Option<i32>) -> (r: Result<UpdateIssue, IssueError>)
    ensures
        user_id matches Some(id) ==> (r matches Ok(u) && u == (UpdateIssue {
            title: None,
            labels: None,
            open: None,
            certified: None,
            assignee_id: Some(id),
            issue_closed_at: None,
            description: None,
            estimation: None,
        })),
        user_id is None ==> (r matches Err(IssueError::InvalidPayload(m)) && m@ == "username not found"@),
{
    match user_id {
        Some(id) => Ok(
            UpdateIssue {
                title: None,
                labels: None,
                open: None,
                certified: None,
                assignee_id: Some(id),
                issue_closed_at: None,
                description: None,
                estimation: None,
            },
        ),
        None => Err(IssueError::InvalidPayload("username not found".to_owned())),
    }
}

/// The answer to an assignment the database refused.
pub fn assignee_update_failure() -> (r: IssueError)
    ensures
        r matches IssueError::CannotUpdate(m) && m@ == "error updating the issue assignee"@,
{
    IssueError::CannotUpdate("error updating the issue assignee".to_owned())
}

/// The answer to an unassignment the database refused.
pub fn assignee_removal_failure() -> (r: IssueError)
    ensures
        r matches IssueError::CannotUpdate(m) && m@ == "error deleting the issue assignee"@,
{
    IssueError::CannotUpdate("error deleting the issue assignee".to_owned())
}

/// The issues a leaderboard counts: the closed issues that have an assignee, within the
/// leaderboard's filters and closing dates.
pub open spec fn leaderboard_query_of(p: LeaderboardQueryParams) -> QueryParams {
    QueryParams {
        slugs: None,
        certified: p.certified,
        purposes: p.purposes,
        stack_levels: p.stack_levels,
        technologies: p.technologies,
        labels: p.labels,
        language_slugs: p.language_slug,
        repository_id: p.repository_id,
        assignee_id: None,
        open: Some(false),
        has_assignee: Some(true),
        issue_closed_at_min: p.start_date,
        issue_closed_at_max: p.close_date,
        rewards: p.rewards,
        certified_or_labels: None,
        types: p.types,
    }
}

/// The issue listing a leaderboard counts.
pub fn leaderboard_query(p: LeaderboardQueryParams) -> (q: QueryParams)
    ensures
        q == leaderboard_query_of(p),
{
    QueryParams {
        slugs: None,
        certified: p.certified,
        purposes: p.purposes,
        stack_levels: p.stack_levels,
        technologies: p.technologies,
        labels: p.labels,
        language_slugs: p.language_slug,
        repository_id: p.repository_id,
        assignee_id: None,
        open: Some(false),
        has_assignee: Some(true),
        issue_closed_at_min: p.start_date,
        issue_closed_at_max: p.close_date,
        rewards: p.rewards,
        certified_or_labels: None,
        types: p.types,
    }
}

/// How many times `name` occurs in `names`.
pub open spec fn occurrences(names: Seq<Option<Seq<char>>>, name: Option<Seq<char>>) -> nat
    decreases names.len(),
{
    if names.len() == 0 {
        0
    } else {
        occurrences(names.drop_last(), name) + (if names.last() == name { 1nat } else { 0nat })
    }
}

/// The total of a list of counts.
pub open spec fn total(counts: Seq<u64>) -> nat
    decreases counts.len(),
{
    if counts.len() == 0 {
        0
    } else {
        total(counts.drop_last()) + (counts.last() as nat)
    }
}

proof fn lemma_total_update(counts: Seq<u64>, k: int, v: u64)
    requires
        0 <= k < counts.len(),
    ensures
        total(counts.update(k, v)) == total(counts) - counts[k] + v,
    decreases counts.len(),
{
    if k < counts.len() - 1 {
        lemma_total_update(counts.drop_last(), k, v);
        assert(counts.update(k, v).drop_last() =~= counts.drop_last().update(k, v));
    } else {
        assert(counts.update(k, v).drop_last() =~= counts.drop_last());
    }
}

proof fn lemma_total_bound(counts: Seq<u64>, k: int)
    requires
        0 <= k < counts.len(),
    ensures
        counts[k] <= total(counts),
    decreases counts.len(),
{
    if k < counts.len() - 1 {
        lemma_total_bound(counts.drop_last(), k);
    }
}

/// Counts how many times each assignee name occurs: the distinct names in the order they first
/// occur, each with its number of occurrences. The counts add up to the number of names.
pub fn tally(names: &Vec<Option<String>>) -> (r: (Vec<Option<String>>, Vec<u64>))
    ensures
        r.0@.map_values(|n: Option<String>| opt_text(n)) == distinct_in_order(
            names@.map_values(|n: Option<String>| opt_text(n)),
        ),
        r.1@.len() == r.0@.len(),
        forall|k: int| 0 <= k < r.1@.len() ==> r.1@[k] == occurrences(
            names@.map_values(|n: Option<String>| opt_text(n)),
            #[trigger] opt_text(r.0@[k]),
        ),
        total(r.1@) == names@.len(),
{
    let ghost all = names@.map_values(|n: Option<String>| opt_text(n));
    let mut keys: Vec<Option<String>> = Vec::new();
    let mut counts: Vec<u64> = Vec::new();
    let mut i: usize = 0;
    while i < names.len()
        invariant
            i <= names@.len(),
            all == names@.map_values(|n: Option<String>| opt_text(n)),
            keys@.map_values(|n: Option<String>| opt_text(n)) == distinct_in_order(all.take(i as int)),
            counts@.len() == keys@.len(),
            forall|k: int| 0 <= k < counts@.len() ==> counts@[k] == occurrences(
                all.take(i as int),
                #[trigger] opt_text(keys@[k]),
            ),
            total(counts@) == i,
        decreases names.len() - i,
    {
        let ghost prefix = all.take(i as int);
        let ghost next = all.take(i + 1);
        let ghost kv = keys@.map_values(|n: Option<String>| opt_text(n));
        assert(next.drop_last() =~= prefix);
        assert(next.last() == opt_text(names@[i as int]));
        let found = find_opt_string(&keys, &names[i]);
        if let Some(j) = found {
            assert(kv[j as int] == opt_text(names@[i as int]));
            assert(kv.contains(next.last()));
            proof {
                lemma_total_bound(counts@, j as int);
            }
            let c = counts[j];
            let ghost old_counts = counts@;
            counts.set(j, c + 1);
            proof {
                lemma_total_update(old_counts, j as int, (c + 1) as u64);
                assert forall|k: int| 0 <= k < counts@.len() implies counts@[k] == occurrences(
                    next,
                    #[trigger] opt_text(keys@[k]),
                ) by {
                    assert(kv[k] == opt_text(keys@[k]));
                    if k != j {
                        assert(kv[k] != kv[j as int]) by {
                            lemma_distinct_in_order_no_duplicates(prefix);
                        }
                    }
                }
            }
        } else {
            assert(!kv.contains(next.last())) by {
                if kv.contains(next.last()) {
                    let m = choose|m: int| 0 <= m < kv.len() && kv[m] == next.last();
                    assert(opt_text(keys@[m]) == kv[m]);
                }
            }
            let ghost old_counts = counts@;
            keys.push(clone_opt_string(&names[i]));
            counts.push(1);
            proof {
                assert(opt_text(keys@[keys@.len() - 1]) == opt_text(names@[i as int]));
                assert(keys@.map_values(|n: Option<String>| opt_text(n)) =~= kv.push(next.last()));
                assert(counts@.drop_last() =~= old_counts);
                lemma_occurrences_absent(prefix, next.last());
                assert forall|k: int| 0 <= k < counts@.len() implies counts@[k] == occurrences(
                    next,
                    #[trigger] opt_text(keys@[k]),
                ) by {
                    if k < old_counts.len() {
                        assert(kv[k] == opt_text(keys@[k]));
                    }
                }
            }
        }
        i = i + 1;
    }
    assert(all.take(names@.len() as int) =~= all);
    (keys, counts)
}

proof fn lemma_occurrences_absent(names: Seq<Option<Seq<char>>>, name: Option<Seq<char>>)
    requires
        !distinct_in_order(names).contains(name),
    ensures
        occurrences(names, name) == 0,
    decreases names.len(),
{
    if names.len() > 0 {
        let prev = distinct_in_order(names.drop_last());
        if prev.contains(names.last()) {
        } else {
            assert(distinct_in_order(names).last() == names.last());
        }
        assert(!prev.contains(name)) by {
            if prev.contains(name) {
                let k = choose|k: int| 0 <= k < prev.len() && prev[k] == name;
                assert(distinct_in_order(names)[k] == name);
            }
        }
        lemma_occurrences_absent(names.drop_last(), name);
    }
}

/// The leaderboard of a list of assigned issues: one line per distinct assignee name (an
/// absent name shown as the empty name), in the order the names first occur, with the number of
/// issues as both `issues` and `score`.
pub fn leaderboard(issues: &Vec<IssueResponse>) -> (entries: Vec<LeaderboardEntry>)
    ensures
        entries@.len() == distinct_in_order(
            issues@.map_values(|i: IssueResponse| opt_text(i.assignee_username)),
        ).len(),
        forall|k: int| 0 <= k < entries@.len() ==> {
            let name = distinct_in_order(
                issues@.map_values(|i: IssueResponse| opt_text(i.assignee_username)),
            )[k];
            &&& (#[trigger] entries@[k]).username@ == (match name {
                Some(n) => n,
                None => Seq::<char>::empty(),
            })
            &&& entries@[k].score == occurrences(
                issues@.map_values(|i: IssueResponse| opt_text(i.assignee_username)),
                name,
            )
            &&& entries@[k].issues == entries@[k].score
        },
        total(entries@.map_values(|e: LeaderboardEntry| e.score)) == issues@.len(),
{
    let mut names: Vec<Option<String>> = Vec::new();
    let mut i: usize = 0;
    while i < issues.len()
        invariant
            i <= issues@.len(),
            names@.map_values(|n: Option<String>| opt_text(n)) == issues@.take(i as int).map_values(
                |i: IssueResponse| opt_text(i.assignee_username),
            ),
            names@.len() == i,
        decreases issues.len() - i,
    {
        let ghost before = names@;
        names.push(clone_opt_string(&issues[i].assignee_username));
        assert(names@ =~= before.push(issues@[i as int].assignee_username));
        assert(issues@.take(i + 1) =~= issues@.take(i as int).push(issues@[i as int]));
        assert(names@.map_values(|n: Option<String>| opt_text(n)) =~= before.map_values(
            |n: Option<String>| opt_text(n),
        ).push(opt_text(issues@[i as int].assignee_username)));
        assert(names@.map_values(|n: Option<String>| opt_text(n)) =~= issues@.take(i + 1).map_values(
            |i: IssueResponse| opt_text(i.assignee_username),
        ));
        i = i + 1;
    }
    assert(issues@.take(issues@.len() as int) =~= issues@);
    let ghost all = issues@.map_values(|i: IssueResponse| opt_text(i.assignee_username));
    let (keys, counts) = tally(&names);
    let mut entries: Vec<LeaderboardEntry> = Vec::new();
    let mut k: usize = 0;
    while k < keys.len()
        invariant
            k <= keys@.len(),
            counts@.len() == keys@.len(),
            all == names@.map_values(|n: Option<String>| opt_text(n)),
            keys@.map_values(|n: Option<String>| opt_text(n)) == distinct_in_order(all),
            forall|m: int| 0 <= m < counts@.len() ==> counts@[m] == occurrences(all, #[trigger] opt_text(keys@[m])),
            entries@.len() == k,
            entries@.map_values(|e: LeaderboardEntry| e.score) == counts@.take(k as int),
            forall|m: int| 0 <= m < k ==> {
                let name = distinct_in_order(all)[m];
                &&& (#[trigger] entries@[m]).username@ == (match name {
                    Some(n) => n,
                    None => Seq::<char>::empty(),
                })
                &&& entries@[m].score == occurrences(all, name)
                &&& entries@[m].issues == entries@[m].score
            },
        decreases keys.len() - k,
    {
        let username = match &keys[k] {
            Some(n) => n.clone(),
            None => String::new(),
        };
        assert(distinct_in_order(all)[k as int] == opt_text(keys@[k as int]));
        let score = counts[k];
        entries.push(LeaderboardEntry { username, issues: score, score });
        assert(entries@.map_values(|e: LeaderboardEntry| e.score) =~= counts@.take(k + 1));
        k = k + 1;
    }
    assert(counts@.take(counts@.len() as int) =~= counts@);
    entries
}

/// The issues a leaderboard counts are the closed issues that have an assignee, under every
/// filter the leaderboard request gives: certification, purposes, stack levels, technologies,
/// labels, language, repository, rewards, types and the closing dates. The request's slugs, and
/// any assignee or "certified or labels" choice, restrict nothing.
pub proof fn lemma_leaderboard_keeps_the_request_filters(p: LeaderboardQueryParams)
    ensures
        leaderboard_query_of(p).open == Some(false),
        leaderboard_query_of(p).has_assignee == Some(true),
        leaderboard_query_of(p).certified == p.certified,
        leaderboard_query_of(p).purposes == p.purposes,
        leaderboard_query_of(p).stack_levels == p.stack_levels,
        leaderboard_query_of(p).technologies == p.technologies,
        leaderboard_query_of(p).labels == p.labels,
        leaderboard_query_of(p).language_slugs == p.language_slug,
        leaderboard_query_of(p).repository_id == p.repository_id,
        leaderboard_query_of(p).rewards == p.rewards,
        leaderboard_query_of(p).types == p.types,
        leaderboard_query_of(p).issue_closed_at_min == p.start_date,
        leaderboard_query_of(p).issue_closed_at_max == p.close_date,
        leaderboard_query_of(p).slugs is None,
        leaderboard_query_of(p).assignee_id is None,
        leaderboard_query_of(p).certified_or_labels is None,
{
}

/// Through the issue listing's conditions: the leaderboard counts only closed issues that have
/// an assignee, and only those of the repository the request names, when it names one.
pub proof fn lemma_leaderboard_counts_closed_assigned_issues(p: LeaderboardQueryParams, r: i32)
    ensures
        issue_filters_of(leaderboard_query_of(p)).contains(IssueListingFilter::Open(false)),
        issue_filters_of(leaderboard_query_of(p)).contains(IssueListingFilter::AssigneePresent),
        issue_filters_of(leaderboard_query_of(p)).contains(IssueListingFilter::RepositoryIs(r)) <==> p.repository_id
            == Some(r),
{
    lemma_issue_filters_follow_their_parameters(leaderboard_query_of(p), arbitrary(), false, r, 0);
}

} // verus!

verus! {

/// The statement that removes the assignee of an issue and stamps the change.
pub open spec fn assignee_removal_statement(id: i32) -> Seq<char> {
    "UPDATE issues SET assignee_id = NULL, updated_at = now() WHERE id = "@ + crate::text::int_to_decimal(id as int)
}

/// The statement that removes the assignee of the issue `id` and stamps the change.
pub fn assignee_removal_sql(id: i32) -> (sql: String)
    ensures
        sql@ == assignee_removal_statement(id),
{
    let digits = crate::text::i32_to_string(id);
    crate::text::concat2("UPDATE issues SET assignee_id = NULL, updated_at = now() WHERE id = ", digits.as_str())
}

} // verus!
