//! Removing repeated values from lists while keeping the order of first occurrence.
use vstd::prelude::*;
use crate::text::opt_text;

verus! {

/// The distinct values of a list, in the order they first occur.
pub open spec fn distinct_in_order<A>(values: Seq<A>) -> Seq<A>
    decreases values.len(),
{
    if values.len() == 0 {
        Seq::empty()
    } else {
        let prev = distinct_in_order(values.drop_last());
        if prev.contains(values.last()) {
            prev
        } else {
            prev.push(values.last())
        }
    }
}

/// The distinct values of a list hold no value twice.
pub proof fn lemma_distinct_in_order_no_duplicates<A>(values: Seq<A>)
    ensures
        distinct_in_order(values).no_duplicates(),
    decreases values.len(),
{
    if values.len() > 0 {
        lemma_distinct_in_order_no_duplicates(values.drop_last());
    }
}

/// The distinct values of a list are exactly the values of the list.
pub proof fn lemma_distinct_in_order_same_values<A>(values: Seq<A>, x: A)
    ensures
        distinct_in_order(values).contains(x) <==> values.contains(x),
    decreases values.len(),
{
    if values.len() > 0 {
        let prev = values.drop_last();
        let l = values.last();
        let dp = distinct_in_order(prev);
        lemma_distinct_in_order_same_values(prev, x);
        assert(values.contains(x) <==> (prev.contains(x) || x == l)) by {
            if values.contains(x) {
                let k = choose|k: int| 0 <= k < values.len() && values[k] == x;
                if k < values.len() - 1 {
                    assert(prev[k] == x);
                }
            }
            if prev.contains(x) {
                let k = choose|k: int| 0 <= k < prev.len() && prev[k] == x;
                assert(values[k] == x);
            }
            if x == l {
                assert(values[values.len() - 1] == x);
            }
        }
        assert(dp.push(l).contains(x) <==> (dp.contains(x) || x == l)) by {
            if dp.push(l).contains(x) {
                let k = choose|k: int| 0 <= k < dp.push(l).len() && dp.push(l)[k] == x;
                if k < dp.len() {
                    assert(dp[k] == x);
                }
            }
            if dp.contains(x) {
                let k = choose|k: int| 0 <= k < dp.len() && dp[k] == x;
                assert(dp.push(l)[k] == x);
            }
            if x == l {
                assert(dp.push(l)[dp.len() as int] == x);
            }
        }
        lemma_distinct_in_order_same_values(prev, l);
    }
}

/// Two optional strings hold the same text, or are both absent.
pub fn opt_string_eq(a: &Option<String>, b: &Option<String>) -> (r: bool)
    ensures
        r == (opt_text(*a) == opt_text(*b)),
{
    match (a, b) {
        (Some(x), Some(y)) => x.eq(y),
        (None, None) => true,
        _ => false,
    }
}

/// A copy of an optional string.
pub fn clone_opt_string(a: &Option<String>) -> (r: Option<String>)
    ensures
        r == *a,
{
    match a {
        Some(x) => Some(x.clone()),
        None => None,
    }
}

/// The position in `keys` of a value with the text of `name`, if there is one.
pub fn find_opt_string(keys: &Vec<Option<String>>, name: &Option<String>) -> (r: Option<usize>)
    ensures
        match r {
            Some(j) => j < keys@.len() && opt_text(keys@[j as int]) == opt_text(*name),
            None => forall|m: int| 0 <= m < keys@.len() ==> opt_text(#[trigger] keys@[m]) != opt_text(*name),
        },
{
    let mut j: usize = 0;
    while j < keys.len()
        invariant
            j <= keys@.len(),
            forall|m: int| 0 <= m < j ==> opt_text(#[trigger] keys@[m]) != opt_text(*name),
        decreases keys.len() - j,
    {
        if opt_string_eq(&keys[j], name) {
            return Some(j);
        }
        j = j + 1;
    }
    None
}

/// The distinct optional strings of a list, in the order they first occur.
pub fn distinct_opt_strings(values: &Vec<Option<String>>) -> (r: Vec<Option<String>>)
    ensures
        r@.map_values(|v: Option<String>| opt_text(v)) == distinct_in_order(
            values@.map_values(|v: Option<String>| opt_text(v)),
        ),
{
    let ghost all = values@.map_values(|v: Option<String>| opt_text(v));
    let mut r: Vec<Option<String>> = Vec::new();
    let mut i: usize = 0;
    while i < values.len()
        invariant
            i <= values@.len(),
            all == values@.map_values(|v: Option<String>| opt_text(v)),
            r@.map_values(|v: Option<String>| opt_text(v)) == distinct_in_order(all.take(i as int)),
        decreases values.len() - i,
    {
        let ghost rv = r@.map_values(|v: Option<String>| opt_text(v));
        assert(all.take(i + 1).drop_last() =~= all.take(i as int));
        assert(all.take(i + 1).last() == opt_text(values@[i as int]));
        match find_opt_string(&r, &values[i]) {
            Some(j) => {
                assert(rv[j as int] == opt_text(values@[i as int]));
            },
            None => {
                assert(!rv.contains(opt_text(values@[i as int]))) by {
                    if rv.contains(opt_text(values@[i as int])) {
                        let m = choose|m: int| 0 <= m < rv.len() && rv[m] == opt_text(values@[i as int]);
                        assert(opt_text(r@[m]) == rv[m]);
                    }
                }
                r.push(clone_opt_string(&values[i]));
                assert(r@.map_values(|v: Option<String>| opt_text(v)) =~= rv.push(
                    opt_text(values@[i as int]),
                ));
            },
        }
        i = i + 1;
    }
    assert(all.take(values@.len() as int) =~= all);
    r
}

/// The position in `keys` of a string with the text of `name`, if there is one.
pub fn find_string(keys: &Vec<String>, name: &String) -> (r: Option<usize>)
    ensures
        match r {
            Some(j) => j < keys@.len() && keys@[j as int]@ == name@,
            None => forall|m: int| 0 <= m < keys@.len() ==> (#[trigger] keys@[m])@ != name@,
        },
{
    let mut j: usize = 0;
    while j < keys.len()
        invariant
            j <= keys@.len(),
            forall|m: int| 0 <= m < j ==> (#[trigger] keys@[m])@ != name@,
        decreases keys.len() - j,
    {
        if keys[j].eq(name) {
            return Some(j);
        }
        j = j + 1;
    }
    None
}

/// The distinct strings of a list, in the order they first occur.
pub fn distinct_strings(values: &Vec<String>) -> (r: Vec<String>)
    ensures
        r.deep_view() == distinct_in_order(values.deep_view()),
{
    let ghost all = values.deep_view();
    let mut r: Vec<String> = Vec::new();
    let mut i: usize = 0;
    while i < values.len()
        invariant
            i <= values@.len(),
            all == values.deep_view(),
            r.deep_view() == distinct_in_order(all.take(i as int)),
        decreases values.len() - i,
    {
        let ghost rv = r.deep_view();
        assert(all.take(i + 1).drop_last() =~= all.take(i as int));
        assert(all.take(i + 1).last() == values@[i as int]@);
        match find_string(&r, &values[i]) {
            Some(j) => {
                assert(rv[j as int] == values@[i as int]@);
            },
            None => {
                assert(!rv.contains(values@[i as int]@)) by {
                    if rv.contains(values@[i as int]@) {
                        let m = choose|m: int| 0 <= m < rv.len() && rv[m] == values@[i as int]@;
                        assert(r@[m]@ == rv[m]);
                    }
                }
                r.push(values[i].clone());
                assert(r.deep_view() =~= rv.push(values@[i as int]@));
            },
        }
        i = i + 1;
    }
    assert(all.take(values@.len() as int) =~= all);
    r
}

} // verus!
