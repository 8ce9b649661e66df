//! Conditions of the list queries: each query parameter that is given adds one condition, in
//! a fixed order, and each one that is absent adds none.
use vstd::prelude::*;

verus! {

/// The condition `f` makes of a parameter that is given; no condition when it is absent.
pub open spec fn given<T, F>(param: Option<T>, f: spec_fn(T) -> F) -> Seq<F> {
    match param {
        Some(v) => seq![f(v)],
        None => Seq::empty(),
    }
}

/// A condition is among two lists of conditions put together exactly when it is among one of
/// them.
pub broadcast proof fn lemma_concat_contains<F>(a: Seq<F>, b: Seq<F>, x: F)
    ensures
        #[trigger] (a + b).contains(x) <==> a.contains(x) || b.contains(x),
{
    if a.contains(x) {
        let k = choose|k: int| 0 <= k < a.len() && a[k] == x;
        assert((a + b)[k] == x);
    }
    if b.contains(x) {
        let k = choose|k: int| 0 <= k < b.len() && b[k] == x;
        assert((a + b)[a.len() + k] == x);
    }
    if (a + b).contains(x) {
        let k = choose|k: int| 0 <= k < (a + b).len() && (a + b)[k] == x;
        if k < a.len() {
            assert(a[k] == x);
        } else {
            assert(b[k - a.len()] == x);
        }
    }
}

/// A parameter adds a condition exactly when it is given and the condition is the one it
/// makes of its value.
pub broadcast proof fn lemma_given_contains<T, F>(param: Option<T>, f: spec_fn(T) -> F, x: F)
    ensures
        #[trigger] given(param, f).contains(x) <==> (param matches Some(v) && f(v) == x),
{
    if let Some(v) = param {
        assert(given(param, f)[0] == f(v));
    }
}

/// A parameter adds one condition when it is given and none when it is absent.
pub broadcast proof fn lemma_given_len<T, F>(param: Option<T>, f: spec_fn(T) -> F)
    ensures
        #[trigger] given(param, f).len() == (if param is Some { 1int } else { 0int }),
{
}

/// The sequence holding the condition that is there, if any.
pub open spec fn present<F>(c: Option<F>) -> Seq<F> {
    match c {
        Some(x) => seq![x],
        None => Seq::empty(),
    }
}

/// Adds the condition that is there, if any, to the end of `v`.
pub fn push_present<F>(v: &mut Vec<F>, c: Option<F>)
    ensures
        final(v)@ == old(v)@ + present(c),
{
    let ghost before = old(v)@;
    match c {
        Some(x) => {
            v.push(x);
            assert(v@ =~= before + seq![x]);
        },
        None => {
            assert(v@ =~= before + Seq::<F>::empty());
        },
    }
}

} // verus!
