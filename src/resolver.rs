//! Answering a lookup: from the cache first, and from a live search only
//! when the cache has no match.
use vstd::prelude::*;
use crate::alfred::AlfredItem;

verus! {

/// The most results that a lookup returns.
pub const RESULT_LIMIT: usize = 5;

/// At most the first `RESULT_LIMIT` names, in the order given.
pub open spec fn capped(names: Seq<String>) -> Seq<String> {
    if names.len() <= RESULT_LIMIT {
        names
    } else {
        names.take(RESULT_LIMIT as int)
    }
}

/// The result rows that show `names`, one row each, in the same order.
pub open spec fn rows_of(names: Seq<String>) -> Seq<AlfredItem> {
    names.map_values(|n: String| AlfredItem { title: n })
}

/// The first step of a lookup.
pub enum Lookup {
    /// the cache matched: these rows are the answer
    Answer(Vec<AlfredItem>),
    /// the cache had no match: a live search must answer
    SearchLive,
}

/// The rows of at most the first `RESULT_LIMIT` names.
fn rows_from(names: Vec<String>) -> (r: Vec<AlfredItem>)
    ensures
        r@ == rows_of(capped(names@)),
{
    let mut out: Vec<AlfredItem> = Vec::new();
    let mut i: usize = 0;
    let n: usize = if names.len() < RESULT_LIMIT { names.len() } else { RESULT_LIMIT };
    while i < n
        invariant
            n <= names@.len(),
            n == capped(names@).len(),
            i <= n,
            out@ == rows_of(capped(names@).take(i as int)),
        decreases n - i,
    {
        let item = AlfredItem::from(names[i].clone());
        out.push(item);
        proof {
            assert(capped(names@)[i as int] == names@[i as int]);
            assert(capped(names@).take(i + 1) == capped(names@).take(i as int).push(names@[i as int]));
        }
        i = i + 1;
    }
    assert(capped(names@).take(i as int) == capped(names@));
    out
}

/// Answers a lookup from the names that the cache matched: with any match
/// the cache's names (at most `RESULT_LIMIT`, in the store's order) are the
/// answer and no live search is made; with none a live search is asked for.
pub fn resolve_from_cache(cache_hits: Vec<String>) -> (r: Lookup)
    ensures
        cache_hits@.len() > 0 ==> (r matches Lookup::Answer(rows) && rows@ == rows_of(capped(cache_hits@))),
        cache_hits@.len() == 0 ==> r is SearchLive,
{
    if cache_hits.len() == 0 {
        Lookup::SearchLive
    } else {
        Lookup::Answer(rows_from(cache_hits))
    }
}

/// Answers a lookup that the cache could not: the live search's names, at
/// most `RESULT_LIMIT`, in the order that the search ranked them. They are
/// not written back to the cache.
pub fn resolve_from_live(live_hits: Vec<String>) -> (r: Vec<AlfredItem>)
    ensures
        r@ == rows_of(capped(live_hits@)),
        live_hits@.len() <= RESULT_LIMIT ==> r@ == rows_of(live_hits@),
{
    rows_from(live_hits)
}

} // verus!
