//! The order of results: best match first, and no more than the cap.
//!
//! The matcher's rank is a real number, lower for a better match. It is
//! carried as its IEEE 754 bit pattern and compared through `rank_key`,
//! which orders bit patterns as the numbers they stand for are ordered.

use vstd::prelude::*;
use vstd::seq_lib::*;
use crate::engine::SearchResult;

verus! {

/// The most results that one query returns.
pub open spec fn result_cap() -> nat {
    25
}

/// An integer that grows with the real whose bit pattern is `bits`: the
/// negative reals, whose sign bit is set, come first and run backwards.
pub open spec fn rank_key(bits: u64) -> u64 {
    if bits >= 0x8000_0000_0000_0000u64 {
        (0xffff_ffff_ffff_ffffu64 - bits) as u64
    } else {
        (bits + 0x8000_0000_0000_0000u64) as u64
    }
}

/// Each result ranks no worse than every result after it.
pub open spec fn is_best_first(results: Seq<SearchResult>) -> bool {
    forall|i: int, j: int|
        0 <= i < j < results.len() ==> rank_key(#[trigger] results[i].score_bits) <= rank_key(
            #[trigger] results[j].score_bits,
        )
}

/// The first `result_cap()` entries of a list.
pub open spec fn capped(hits: Seq<SearchResult>) -> Seq<SearchResult> {
    if hits.len() <= result_cap() {
        hits
    } else {
        hits.take(result_cap() as int)
    }
}

/// The key by which ranks are compared.
pub fn rank_order(bits: u64) -> (key: u64)
    ensures
        key == rank_key(bits),
{
    if bits >= 0x8000_0000_0000_0000u64 {
        0xffff_ffff_ffff_ffffu64 - bits
    } else {
        bits + 0x8000_0000_0000_0000u64
    }
}

/// Where a result with key `key` goes in a best-first list: before the
/// first entry that ranks no better than it.
pub open spec fn place_of(ordered: Seq<SearchResult>, key: u64) -> int
    decreases ordered.len(),
{
    if ordered.len() == 0 || rank_key(ordered.first().score_bits) >= key {
        0
    } else {
        1 + place_of(ordered.drop_first(), key)
    }
}

/// A list in best-first order. Each result is put before the results after
/// it that rank no better, so results of equal rank keep their order.
pub open spec fn best_first_of(hits: Seq<SearchResult>) -> Seq<SearchResult>
    decreases hits.len(),
{
    if hits.len() == 0 {
        Seq::empty()
    } else {
        let tail = best_first_of(hits.drop_first());
        tail.insert(place_of(tail, rank_key(hits.first().score_bits)), hits.first())
    }
}

/// The place of a key is the one index with only better entries before it
/// and an entry that is no better, or the end, at it.
pub proof fn lemma_place_of(ordered: Seq<SearchResult>, key: u64, at: int)
    requires
        0 <= at <= ordered.len(),
        forall|k: int| 0 <= k < at ==> rank_key(#[trigger] ordered[k].score_bits) < key,
        at == ordered.len() || rank_key(ordered[at].score_bits) >= key,
    ensures
        place_of(ordered, key) == at,
    decreases ordered.len(),
{
    if at > 0 {
        let tail = ordered.drop_first();
        assert(rank_key(ordered[0].score_bits) < key);
        assert forall|k: int| 0 <= k < at - 1 implies rank_key(#[trigger] tail[k].score_bits)
            < key by {
            assert(tail[k] == ordered[k + 1]);
        }
        if at < ordered.len() {
            assert(tail[at - 1] == ordered[at]);
        }
        lemma_place_of(tail, key, at - 1);
    }
}

/// The place of a key lies within the list, with only better entries
/// before it and an entry that is no better, or the end, at it.
pub proof fn lemma_place_bounds(ordered: Seq<SearchResult>, key: u64)
    ensures
        0 <= place_of(ordered, key) <= ordered.len(),
        forall|k: int|
            0 <= k < place_of(ordered, key) ==> rank_key(#[trigger] ordered[k].score_bits) < key,
        place_of(ordered, key) == ordered.len() || rank_key(
            ordered[place_of(ordered, key)].score_bits,
        ) >= key,
    decreases ordered.len(),
{
    if !(ordered.len() == 0 || rank_key(ordered.first().score_bits) >= key) {
        let tail = ordered.drop_first();
        lemma_place_bounds(tail, key);
        let at = place_of(ordered, key);
        assert forall|k: int| 0 <= k < at implies rank_key(#[trigger] ordered[k].score_bits)
            < key by {
            if k > 0 {
                assert(ordered[k] == tail[k - 1]);
            }
        }
        if at < ordered.len() {
            assert(ordered[at] == tail[at - 1]);
        }
    }
}

/// Ordering a list puts the best match first and neither adds nor drops a
/// result.
pub proof fn lemma_best_first_of(hits: Seq<SearchResult>)
    ensures
        is_best_first(best_first_of(hits)),
        best_first_of(hits).to_multiset() == hits.to_multiset(),
        best_first_of(hits).len() == hits.len(),
    decreases hits.len(),
{
    broadcast use vstd::seq_lib::group_to_multiset_ensures;

    if hits.len() == 0 {
        assert(hits =~= Seq::empty());
    } else {
        let tail = best_first_of(hits.drop_first());
        let hit = hits.first();
        let key = rank_key(hit.score_bits);
        let at = place_of(tail, key);
        let ordered = tail.insert(at, hit);
        lemma_best_first_of(hits.drop_first());
        lemma_place_bounds(tail, key);
        tail.insert_ensures(at, hit);
        assert forall|i: int, j: int| 0 <= i < j < ordered.len() implies rank_key(
            #[trigger] ordered[i].score_bits,
        ) <= rank_key(#[trigger] ordered[j].score_bits) by {
            if j < at {
            } else if j == at {
            } else if i < at {
                assert(ordered[j] == tail[j - 1]);
                assert(rank_key(tail[at].score_bits) >= key);
            } else if i == at {
                assert(ordered[j] == tail[j - 1]);
            } else {
                assert(ordered[i] == tail[i - 1]);
                assert(ordered[j] == tail[j - 1]);
            }
        }
        assert(hits =~= hits.drop_first().insert(0, hit));
        assert(ordered.to_multiset() =~= hits.to_multiset());
    }
}

/// A list that is best first already is left as it is.
pub proof fn lemma_ordered_list_is_kept(hits: Seq<SearchResult>)
    requires
        is_best_first(hits),
    ensures
        best_first_of(hits) == hits,
    decreases hits.len(),
{
    if hits.len() > 0 {
        let rest = hits.drop_first();
        assert forall|i: int, j: int| 0 <= i < j < rest.len() implies rank_key(
            #[trigger] rest[i].score_bits,
        ) <= rank_key(#[trigger] rest[j].score_bits) by {
            assert(rest[i] == hits[i + 1] && rest[j] == hits[j + 1]);
        }
        lemma_ordered_list_is_kept(rest);
        if rest.len() > 0 {
            assert(rest[0] == hits[1]);
            assert(rank_key(hits[0].score_bits) <= rank_key(hits[1].score_bits));
        }
        assert(place_of(rest, rank_key(hits.first().score_bits)) == 0);
        assert(rest.insert(0, hits.first()) =~= hits);
    }
}

/// Of the results of a query, none that was cut off ranks better than one
/// that was kept.
pub proof fn lemma_nothing_better_is_cut(hits: Seq<SearchResult>, kept: int, cut: int)
    requires
        0 <= kept < result_cap() <= cut < hits.len(),
    ensures
        capped(best_first_of(hits))[kept] == best_first_of(hits)[kept],
        rank_key(best_first_of(hits)[kept].score_bits) <= rank_key(
            best_first_of(hits)[cut].score_bits,
        ),
{
    lemma_best_first_of(hits);
}

/// Orders a list best first, as `best_first_of` says. It holds the same
/// results as before.
pub fn best_first(hits: Vec<SearchResult>) -> (ordered: Vec<SearchResult>)
    ensures
        ordered@ == best_first_of(hits@),
        is_best_first(ordered@),
        ordered@.to_multiset() == hits@.to_multiset(),
{
    let ghost all = hits@;
    let mut rest = hits;
    let mut ordered: Vec<SearchResult> = Vec::new();
    assert(all.subrange(rest@.len() as int, all.len() as int) =~= Seq::empty());
    while rest.len() > 0
        invariant
            rest@ == all.take(rest@.len() as int),
            rest@.len() <= all.len(),
            ordered@ == best_first_of(all.subrange(rest@.len() as int, all.len() as int)),
        decreases rest.len(),
    {
        let ghost rest_before = rest@;
        let ghost ordered_before = ordered@;
        let hit = rest.pop().unwrap();
        let key = rank_order(hit.score_bits);
        let mut at: usize = 0;
        while at < ordered.len() && rank_order(ordered[at].score_bits) < key
            invariant
                at <= ordered.len(),
                forall|k: int| 0 <= k < at ==> rank_key(#[trigger] ordered@[k].score_bits) < key,
            decreases ordered.len() - at,
        {
            at += 1;
        }
        ordered.insert(at, hit);
        proof {
            let suffix = all.subrange(rest@.len() as int, all.len() as int);
            assert(suffix.first() == hit);
            assert(suffix.drop_first() =~= all.subrange(rest_before.len() as int, all.len() as int));
            lemma_place_of(ordered_before, key, at as int);
            assert(rest@ =~= all.take(rest@.len() as int));
        }
    }
    proof {
        assert(all.subrange(0, all.len() as int) =~= all);
        lemma_best_first_of(all);
    }
    ordered
}

/// Bounds a list to the cap, keeping its order.
pub fn cap_results(hits: Vec<SearchResult>) -> (results: Vec<SearchResult>)
    ensures
        results@ == capped(hits@),
        results@.len() <= result_cap(),
        hits@.len() > result_cap() ==> results@.len() == result_cap(),
{
    let mut results = hits;
    results.truncate(25);
    results
}

/// The results of a query from the rows that matched: best first, cut at
/// the cap, so that what is left out ranks no better than what is kept.
pub fn rank_results(hits: Vec<SearchResult>) -> (results: Vec<SearchResult>)
    ensures
        results@ == capped(best_first_of(hits@)),
        is_best_first(results@),
        results@.len() == if hits@.len() <= result_cap() {
            hits@.len()
        } else {
            result_cap()
        },
        results@.to_multiset().subset_of(hits@.to_multiset()),
{
    let ordered = best_first(hits);
    proof {
        ordered@.to_multiset_ensures();
        hits@.to_multiset_ensures();
        lemma_capped_is_part(ordered@);
    }
    cap_results(ordered)
}

/// Cutting a list at the cap leaves only results that the list held.
pub proof fn lemma_capped_is_part(hits: Seq<SearchResult>)
    ensures
        capped(hits).to_multiset().subset_of(hits.to_multiset()),
{
    broadcast use vstd::seq_lib::group_to_multiset_ensures;

    let kept = capped(hits);
    if hits.len() > result_cap() {
        let dropped = hits.skip(result_cap() as int);
        assert(hits =~= kept + dropped);
        lemma_multiset_commutative(kept, dropped);
    }
    assert forall|r: SearchResult| kept.to_multiset().count(r) <= hits.to_multiset().count(r) by {}
}

} // verus!
