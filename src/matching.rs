//! Headword matching: the exact pass and the prefix fallback.

use crate::api::{entry_views, DictionaryEntry, EntryView};
use crate::text::{
    chars_of, eq_ignoring_case, equal_ignoring_case, folded, is_white_space, prefix_ignoring_case,
    starts_with_ignoring_case, trim_end, trim_start, trimmed,
};
use vstd::prelude::*;

verus! {

/// Whether the headword of `e` matches the term `t`: equal to it or, for the
/// prefix pass, beginning with it, ignoring ASCII letter case.
pub open spec fn headword_matches(e: EntryView, t: Seq<char>, prefix: bool) -> bool {
    if prefix {
        starts_with_ignoring_case(e.word, t)
    } else {
        equal_ignoring_case(e.word, t)
    }
}

/// The entries of `store` that match `t` in one pass, in store order.
pub open spec fn matches(store: Seq<EntryView>, t: Seq<char>, prefix: bool) -> Seq<EntryView> {
    store.filter(|e: EntryView| headword_matches(e, t, prefix))
}

/// The entries whose headword equals `t`, ignoring ASCII letter case.
pub open spec fn exact_matches(store: Seq<EntryView>, t: Seq<char>) -> Seq<EntryView> {
    matches(store, t, false)
}

/// The entries whose headword begins with `t`, ignoring ASCII letter case.
pub open spec fn prefix_matches(store: Seq<EntryView>, t: Seq<char>) -> Seq<EntryView> {
    matches(store, t, true)
}

/// The exact matches of `t` where there are any, else its prefix matches.
pub open spec fn resolved(store: Seq<EntryView>, t: Seq<char>) -> Seq<EntryView> {
    if exact_matches(store, t).len() > 0 {
        exact_matches(store, t)
    } else {
        prefix_matches(store, t)
    }
}

/// Copies of the entries of `store` that match `t` in one pass, in store
/// order.
pub(crate) fn collect_matches(store: &Vec<DictionaryEntry>, t: &Vec<char>, prefix: bool) -> (r: Vec<
    DictionaryEntry,
>)
    ensures
        entry_views(r@) == matches(entry_views(store@), t@, prefix),
{
    let ghost all = entry_views(store@);
    let mut out: Vec<DictionaryEntry> = Vec::new();
    let mut i: usize = 0;
    assert(entry_views(out@) =~= matches(all.subrange(0, 0), t@, prefix)) by {
        reveal(Seq::filter);
    }
    while i < store.len()
        invariant
            i <= store.len(),
            all == entry_views(store@),
            entry_views(out@) == matches(all.subrange(0, i as int), t@, prefix),
        decreases store.len() - i,
    {
        let w = chars_of(store[i].word.as_str());
        let hit = if prefix {
            prefix_ignoring_case(&w, t)
        } else {
            eq_ignoring_case(&w, t)
        };
        let ghost before = out@;
        if hit {
            out.push(store[i].clone());
            assert(entry_views(out@) =~= entry_views(before).push(all[i as int]));
        }
        proof {
            reveal(Seq::filter);
            assert(all.subrange(0, i + 1).drop_last() =~= all.subrange(0, i as int));
            assert(all.subrange(0, i + 1).last() == all[i as int]);
        }
        i = i + 1;
    }
    assert(all.subrange(0, store.len() as int) =~= all);
    out
}

proof fn lemma_filter_none(s: Seq<EntryView>, p: spec_fn(EntryView) -> bool)
    requires
        forall|i: int| 0 <= i < s.len() ==> !p(#[trigger] s[i]),
    ensures
        s.filter(p).len() == 0,
    decreases s.len(),
{
    reveal(Seq::filter);
    if s.len() > 0 {
        assert forall|i: int| 0 <= i < s.drop_last().len() implies !p(#[trigger] s.drop_last()[i]) by {
            assert(s.drop_last()[i] == s[i]);
        }
        lemma_filter_none(s.drop_last(), p);
    }
}

proof fn lemma_filter_some(s: Seq<EntryView>, p: spec_fn(EntryView) -> bool, i: int)
    requires
        0 <= i < s.len(),
        p(s[i]),
    ensures
        s.filter(p).len() > 0,
{
    broadcast use Seq::lemma_filter_contains;

    assert(s.filter(p).contains(s[i]));
}

/// Where some headword equals the trimmed query, ignoring ASCII letter case,
/// the query gives exactly the entries with that headword, in store order,
/// and the prefix pass does not run.
pub proof fn lemma_exact_match_wins(store: Seq<EntryView>, query: Seq<char>, i: int)
    requires
        trimmed(query).len() > 0,
        0 <= i < store.len(),
        equal_ignoring_case(store[i].word, trimmed(query)),
    ensures
        resolved(store, trimmed(query)) == exact_matches(store, trimmed(query)),
        resolved(store, trimmed(query)).len() > 0,
{
    let t = trimmed(query);
    lemma_filter_some(store, |e: EntryView| headword_matches(e, t, false), i);
}

/// Where no headword equals the trimmed query but some begin with it,
/// ignoring ASCII letter case, the query gives exactly the entries whose
/// headword begins with it, in store order.
pub proof fn lemma_prefix_fallback(store: Seq<EntryView>, query: Seq<char>, i: int)
    requires
        trimmed(query).len() > 0,
        forall|k: int| 0 <= k < store.len() ==> !equal_ignoring_case(#[trigger] store[k].word, trimmed(query)),
        0 <= i < store.len(),
        starts_with_ignoring_case(store[i].word, trimmed(query)),
    ensures
        resolved(store, trimmed(query)) == prefix_matches(store, trimmed(query)),
        resolved(store, trimmed(query)).len() > 0,
{
    let t = trimmed(query);
    lemma_filter_none(store, |e: EntryView| headword_matches(e, t, false));
    lemma_filter_some(store, |e: EntryView| headword_matches(e, t, true), i);
}

/// A word equal to a term, ignoring ASCII letter case, also begins with it.
pub proof fn lemma_equal_starts_with(w: Seq<char>, t: Seq<char>)
    requires
        equal_ignoring_case(w, t),
    ensures
        starts_with_ignoring_case(w, t),
{
    assert(folded(w).len() == w.len());
    assert(w.subrange(0, t.len() as int) =~= w);
}

/// Where no headword equals or begins with the trimmed query, ignoring ASCII
/// letter case, the query gives nothing, so the lookup fails with the trimmed
/// query as the term not found.
pub proof fn lemma_nothing_matches(store: Seq<EntryView>, query: Seq<char>)
    requires
        forall|k: int|
            0 <= k < store.len() ==> !starts_with_ignoring_case(#[trigger] store[k].word, trimmed(query)),
    ensures
        resolved(store, trimmed(query)).len() == 0,
{
    let t = trimmed(query);
    assert forall|k: int| 0 <= k < store.len() implies !equal_ignoring_case(#[trigger] store[k].word, t) by {
        if equal_ignoring_case(store[k].word, t) {
            lemma_equal_starts_with(store[k].word, t);
        }
    }
    lemma_filter_none(store, |e: EntryView| headword_matches(e, t, false));
    lemma_filter_none(store, |e: EntryView| headword_matches(e, t, true));
}

/// A query made of whitespace alone, the empty one included, trims to
/// nothing, so its lookup fails with `EmptyQuery`.
pub proof fn lemma_blank_query_is_empty(query: Seq<char>)
    requires
        forall|i: int| 0 <= i < query.len() ==> is_white_space(#[trigger] query[i]),
    ensures
        trimmed(query).len() == 0,
    decreases query.len(),
{
    if query.len() > 0 {
        assert forall|i: int| 0 <= i < query.drop_first().len() implies is_white_space(
            #[trigger] query.drop_first()[i],
        ) by {
            assert(query.drop_first()[i] == query[i + 1]);
        }
        lemma_blank_query_is_empty(query.drop_first());
        assert(trim_start(query) == trim_start(query.drop_first()));
    }
    assert(trim_start(query).len() == 0 ==> trim_end(trim_start(query)).len() == 0);
}

} // verus!
