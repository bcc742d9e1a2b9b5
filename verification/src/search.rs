//! The live search filter: which store entries a query leaves visible.

use crate::configuration::ConfigurationModel;
use crate::store::Store;
use crate::text::{matches_query, name_matches};
use vstd::prelude::*;

verus! {

/// The names of a list of configurations, in list order.
pub open spec fn names_of(configurations: Seq<ConfigurationModel>) -> Seq<Seq<char>> {
    Seq::new(configurations.len(), |i: int| configurations[i].name)
}

/// The indices of the names that `query` matches, in increasing order.
pub open spec fn visible(names: Seq<Seq<char>>, query: Seq<char>) -> Seq<usize>
    decreases names.len(),
{
    if names.len() == 0 {
        Seq::empty()
    } else if matches_query(names.last(), query) {
        visible(names.drop_last(), query).push((names.len() - 1) as usize)
    } else {
        visible(names.drop_last(), query)
    }
}

/// Every index of `0 .. n`, in increasing order.
pub open spec fn all_indices(n: nat) -> Seq<usize> {
    Seq::new(n, |i: int| i as usize)
}

/// An empty query leaves every entry visible, in store order.
pub proof fn lemma_visible_empty_query(names: Seq<Seq<char>>, query: Seq<char>)
    requires
        query.len() == 0,
        names.len() <= usize::MAX,
    ensures
        visible(names, query) == all_indices(names.len()),
    decreases names.len(),
{
    if names.len() > 0 {
        lemma_visible_empty_query(names.drop_last(), query);
        assert(visible(names, query) =~= all_indices(names.len()));
    } else {
        assert(visible(names, query) =~= all_indices(names.len()));
    }
}

/// The visible indices are exactly those whose name the query matches: each
/// is in range and matches, each matching index occurs, and they increase
/// strictly, so none occurs twice and store order is kept.
pub proof fn lemma_visible_exact(names: Seq<Seq<char>>, query: Seq<char>)
    requires
        names.len() <= usize::MAX,
    ensures
        visible(names, query).len() <= names.len(),
        forall|k: int|
            0 <= k < visible(names, query).len() ==> (#[trigger] visible(names, query)[k])
                < names.len() && matches_query(names[visible(names, query)[k] as int], query),
        forall|i: int|
            0 <= i < names.len() && matches_query(#[trigger] names[i], query) ==> visible(
                names,
                query,
            ).contains(i as usize),
        forall|k: int, l: int|
            0 <= k < l < visible(names, query).len() ==> visible(names, query)[k] < visible(
                names,
                query,
            )[l],
    decreases names.len(),
{
    if names.len() > 0 {
        let rest = names.drop_last();
        let last = (names.len() - 1) as usize;
        lemma_visible_exact(rest, query);
        let v = visible(names, query);
        let w = visible(rest, query);
        assert forall|i: int| 0 <= i < names.len() && matches_query(
            #[trigger] names[i],
            query,
        ) implies v.contains(i as usize) by {
            if i < names.len() - 1 {
                assert(rest[i] == names[i]);
                assert(w.contains(i as usize));
                let k = choose|k: int| 0 <= k < w.len() && w[k] == i as usize;
                assert(v[k] == i as usize);
            } else {
                assert(v[v.len() - 1] == last);
            }
        }
        assert forall|k: int| 0 <= k < v.len() implies (#[trigger] v[k]) < names.len()
            && matches_query(names[v[k] as int], query) by {
            if k < w.len() {
                assert(v[k] == w[k]);
                assert(rest[w[k] as int] == names[w[k] as int]);
            }
        }
        assert forall|k: int, l: int| 0 <= k < l < v.len() implies v[k] < v[l] by {
            if l < w.len() {
                assert(v[k] == w[k] && v[l] == w[l]);
            } else {
                assert(v[k] == w[k]);
            }
        }
    }
}

/// The indices of the store's entries whose name contains `query` without
/// regard to case, in store order; all of them where `query` is empty.
pub fn visible_indices(store: &Store, query: &str) -> (r: Vec<usize>)
    ensures
        r@ == visible(names_of(store@.configurations), query@),
{
    let ghost names = names_of(store@.configurations);
    let n = store.len();
    let mut out: Vec<usize> = Vec::new();
    let mut i: usize = 0;
    while i < n
        invariant
            i <= n,
            n == store@.configurations.len(),
            names == names_of(store@.configurations),
            out@ == visible(names.take(i as int), query@),
        decreases n - i,
    {
        let shown = match store.get(i) {
            Some(configuration) => name_matches(configuration.name.as_str(), query),
            None => false,
        };
        proof {
            assert(names.take(i + 1).drop_last() =~= names.take(i as int));
            assert(names.take(i + 1).last() == store@.configurations[i as int].name);
        }
        if shown {
            out.push(i);
        }
        i = i + 1;
    }
    proof {
        assert(names.take(n as int) =~= names);
    }
    out
}

} // verus!
