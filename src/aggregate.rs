//! Fan-in of per-collection issue fetches: successes are merged, failures
//! are recorded and contribute nothing, and the merged list is ordered
//! most-recently-modified first.

use vstd::prelude::*;
use vstd::seq_lib::*;
use vstd::multiset::*;
use crate::domain::Issue;
use crate::error::TaigaClientError;

verus! {

/// The outcome of fetching one remote collection.
pub struct CollectionFetch {
    pub collection_id: i64,
    pub outcome: Result<Vec<Issue>, TaigaClientError>,
}

/// Merged issues in recency order, and the collections whose fetch failed.
pub struct AggregationResult {
    pub items: Vec<Issue>,
    pub failed_collections: Vec<i64>,
}

/// What one fetch contributes to the merge: its items, or nothing.
pub open spec fn contribution(f: CollectionFetch) -> Seq<Issue> {
    match f.outcome {
        Ok(v) => v@,
        Err(_) => Seq::empty(),
    }
}

/// The items of all successful fetches, in fetch order.
pub open spec fn collected(fs: Seq<CollectionFetch>) -> Seq<Issue>
    decreases fs.len(),
{
    if fs.len() == 0 {
        Seq::empty()
    } else {
        contribution(fs[0]) + collected(fs.drop_first())
    }
}

/// The ids of the collections whose fetch failed, in fetch order.
pub open spec fn failed_ids(fs: Seq<CollectionFetch>) -> Seq<i64>
    decreases fs.len(),
{
    if fs.len() == 0 {
        Seq::empty()
    } else {
        (if fs[0].outcome is Err { seq![fs[0].collection_id] } else { Seq::empty() }) + failed_ids(
            fs.drop_first(),
        )
    }
}

/// `a` comes no later than `b` in recency order: a later timestamp first,
/// and any timestamp before none.
pub open spec fn recency_ge(a: Option<i64>, b: Option<i64>) -> bool {
    match (a, b) {
        (Some(x), Some(y)) => x >= y,
        (Some(_), None) => true,
        (None, None) => true,
        (None, Some(_)) => false,
    }
}

pub open spec fn sorted_by_recency(s: Seq<Issue>) -> bool {
    forall|i: int, j: int|
        0 <= i < j < s.len() ==> recency_ge(#[trigger] s[i].modified_at, #[trigger] s[j].modified_at)
}

fn recency_ge_exec(a: Option<i64>, b: Option<i64>) -> (r: bool)
    ensures
        r == recency_ge(a, b),
{
    match (a, b) {
        (Some(x), Some(y)) => x >= y,
        (Some(_), None) => true,
        (None, None) => true,
        (None, Some(_)) => false,
    }
}

/// Orders issues most-recently-modified first; issues without a timestamp
/// come after all that have one.
pub fn sort_by_recency(items: Vec<Issue>) -> (r: Vec<Issue>)
    ensures
        sorted_by_recency(r@),
        r@.to_multiset() == items@.to_multiset(),
{
    broadcast use group_to_multiset_ensures;
    let mut rest = items;
    let mut out: Vec<Issue> = Vec::new();
    while rest.len() > 0
        invariant
            sorted_by_recency(out@),
            out@.to_multiset().add(rest@.to_multiset()) == items@.to_multiset(),
        decreases rest.len(),
    {
        let ghost before = rest@;
        let item = rest.pop().unwrap();
        proof {
            assert(before =~= rest@.push(item));
            to_multiset_build(rest@, item);
        }
        let mut p: usize = 0;
        while p < out.len() && recency_ge_exec(out[p].modified_at, item.modified_at)
            invariant
                p <= out.len(),
                forall|k: int| 0 <= k < p ==> recency_ge(#[trigger] out@[k].modified_at, item.modified_at),
            decreases out.len() - p,
        {
            p = p + 1;
        }
        let ghost old_out = out@;
        proof {
            if p < out.len() {
                assert(!recency_ge(old_out[p as int].modified_at, item.modified_at));
                assert forall|k: int| p <= k < old_out.len() implies !recency_ge(
                    #[trigger] old_out[k].modified_at,
                    item.modified_at,
                ) by {
                    if k > p {
                        assert(recency_ge(old_out[p as int].modified_at, old_out[k].modified_at));
                    }
                }
            }
        }
        out.insert(p, item);
        proof {
            to_multiset_insert(old_out, p as int, item);
            let s = out@;
            assert(s =~= old_out.insert(p as int, item));
            assert forall|i: int, j: int| 0 <= i < j < s.len() implies recency_ge(
                #[trigger] s[i].modified_at,
                #[trigger] s[j].modified_at,
            ) by {
                if j < p {
                    assert(s[i] == old_out[i] && s[j] == old_out[j]);
                } else if j == p {
                    assert(s[i] == old_out[i]);
                } else if i < p {
                    assert(s[i] == old_out[i] && s[j] == old_out[j - 1]);
                    assert(recency_ge(old_out[i].modified_at, item.modified_at));
                    assert(!recency_ge(old_out[j - 1].modified_at, item.modified_at));
                } else if i == p {
                    assert(s[j] == old_out[j - 1]);
                    assert(!recency_ge(old_out[j - 1].modified_at, item.modified_at));
                } else {
                    assert(s[i] == old_out[i - 1] && s[j] == old_out[j - 1]);
                }
            }
            assert(out@.to_multiset().add(rest@.to_multiset()) =~= items@.to_multiset());
        }
    }
    proof {
        assert(rest@.to_multiset() =~= Multiset::empty());
        assert(out@.to_multiset().add(rest@.to_multiset()) =~= out@.to_multiset());
    }
    out
}

/// Joins the outcomes of a batch of fetches: every successful fetch's
/// items, globally ordered by recency, and the ids of the failed ones.
/// Failures never abort the join.
pub fn aggregate_fetches(fetches: Vec<CollectionFetch>) -> (r: AggregationResult)
    ensures
        r.items@.to_multiset() == collected(fetches@).to_multiset(),
        sorted_by_recency(r.items@),
        r.failed_collections@ == failed_ids(fetches@),
{
    let mut rest = fetches;
    let mut merged: Vec<Issue> = Vec::new();
    let mut failed: Vec<i64> = Vec::new();
    while rest.len() > 0
        invariant
            merged@ + collected(rest@) == collected(fetches@),
            failed@ + failed_ids(rest@) == failed_ids(fetches@),
        decreases rest.len(),
    {
        let ghost before = rest@;
        let f = rest.remove(0);
        proof {
            assert(rest@ =~= before.drop_first());
        }
        match f.outcome {
            Ok(mut items) => {
                merged.append(&mut items);
                proof {
                    assert(merged@ + collected(rest@) =~= collected(fetches@));
                    assert(failed@ + failed_ids(rest@) =~= failed_ids(fetches@));
                }
            },
            Err(_) => {
                failed.push(f.collection_id);
                proof {
                    assert(merged@ + collected(rest@) =~= collected(fetches@));
                    assert(failed@ + failed_ids(rest@) =~= failed_ids(fetches@));
                }
            },
        }
    }
    proof {
        assert(merged@ =~= collected(fetches@));
        assert(failed@ =~= failed_ids(fetches@));
    }
    AggregationResult { items: sort_by_recency(merged), failed_collections: failed }
}

/// Every fetch of a non-empty batch was rejected as unauthorized.
pub open spec fn all_unauthorized(fs: Seq<CollectionFetch>) -> bool {
    fs.len() > 0 && forall|i: int| 0 <= i < fs.len() ==> (#[trigger] fs[i].outcome matches Err(
        TaigaClientError::Unauthorized(_),
    ))
}

/// Whether the engine re-authenticates once and runs the whole batch
/// again: only when every fetch of a non-empty batch came back
/// unauthorized, so per-fetch retries and a batch retry never stack.
pub fn batch_needs_reauth(fetches: &Vec<CollectionFetch>) -> (r: bool)
    ensures
        r == all_unauthorized(fetches@),
{
    if fetches.len() == 0 {
        return false;
    }
    let mut i: usize = 0;
    while i < fetches.len()
        invariant
            i <= fetches@.len(),
            forall|k: int| 0 <= k < i ==> (#[trigger] fetches@[k].outcome matches Err(
                TaigaClientError::Unauthorized(_),
            )),
        decreases fetches.len() - i,
    {
        let denied = match &fetches[i].outcome {
            Err(e) => e.is_unauthorized(),
            Ok(_) => false,
        };
        if !denied {
            return false;
        }
        i = i + 1;
    }
    true
}

proof fn lemma_collected_concat(a: Seq<CollectionFetch>, b: Seq<CollectionFetch>)
    ensures
        collected(a + b) == collected(a) + collected(b),
    decreases a.len(),
{
    if a.len() == 0 {
        assert(a + b =~= b);
        assert(collected(a) + collected(b) =~= collected(b));
    } else {
        lemma_collected_concat(a.drop_first(), b);
        assert((a + b).drop_first() =~= a.drop_first() + b);
        assert(collected(a + b) =~= collected(a) + collected(b));
    }
}

proof fn lemma_collected_single(f: CollectionFetch)
    ensures
        collected(seq![f]) == contribution(f),
{
    assert(seq![f].drop_first() =~= Seq::<CollectionFetch>::empty());
    assert(collected(Seq::<CollectionFetch>::empty()) == Seq::<Issue>::empty());
    assert(seq![f][0] == f);
    assert(contribution(f) + Seq::<Issue>::empty() =~= contribution(f));
}

/// In recency order every issue with a timestamp precedes every issue
/// without one, and timestamps never increase along the sequence.
pub proof fn lemma_recency_order(s: Seq<Issue>)
    requires
        sorted_by_recency(s),
    ensures
        forall|i: int, j: int|
            0 <= i < j < s.len() && #[trigger] s[j].modified_at is Some ==> #[trigger] s[i].modified_at is Some,
        forall|i: int, j: int|
            0 <= i < j < s.len() && #[trigger] s[i].modified_at is Some && #[trigger] s[j].modified_at is Some
                ==> s[i].modified_at.unwrap() >= s[j].modified_at.unwrap(),
{
    assert forall|i: int, j: int|
        0 <= i < j < s.len() && #[trigger] s[j].modified_at is Some implies #[trigger] s[i].modified_at is Some by {
        assert(recency_ge(s[i].modified_at, s[j].modified_at));
    }
    assert forall|i: int, j: int|
        0 <= i < j < s.len() && #[trigger] s[i].modified_at is Some && #[trigger] s[j].modified_at is Some
        implies s[i].modified_at.unwrap() >= s[j].modified_at.unwrap() by {
        assert(recency_ge(s[i].modified_at, s[j].modified_at));
    }
}

/// A failing fetch takes away exactly its own collection's items: turning
/// the outcome of fetch `i` into an error removes from the merged multiset
/// what that fetch contributed, and leaves every other collection's items.
pub proof fn lemma_failure_isolated(fs: Seq<CollectionFetch>, i: int, e: TaigaClientError)
    requires
        0 <= i < fs.len(),
    ensures
        ({
            let failed = fs.update(i, CollectionFetch { collection_id: fs[i].collection_id, outcome: Err(e) });
            collected(failed).to_multiset() == collected(fs).to_multiset().sub(contribution(fs[i]).to_multiset())
                && collected(fs).to_multiset() == collected(failed).to_multiset().add(
                contribution(fs[i]).to_multiset(),
            )
        }),
{
    broadcast use group_to_multiset_ensures;
    let g = CollectionFetch { collection_id: fs[i].collection_id, outcome: Err(e) };
    let failed = fs.update(i, g);
    let pre = fs.subrange(0, i);
    let post = fs.subrange(i + 1, fs.len() as int);
    assert(fs =~= pre + seq![fs[i]] + post);
    assert(failed =~= pre + seq![g] + post);
    lemma_collected_concat(pre + seq![fs[i]], post);
    lemma_collected_concat(pre, seq![fs[i]]);
    lemma_collected_concat(pre + seq![g], post);
    lemma_collected_concat(pre, seq![g]);
    lemma_collected_single(fs[i]);
    lemma_collected_single(g);
    let a = collected(pre);
    let b = collected(post);
    let x = contribution(fs[i]);
    assert(contribution(g) =~= Seq::<Issue>::empty());
    assert(collected(fs) == a + x + b);
    assert(collected(failed) =~= a + b);
    lemma_multiset_commutative(a + x, b);
    lemma_multiset_commutative(a, x);
    lemma_multiset_commutative(a, b);
    assert(collected(failed).to_multiset() =~= collected(fs).to_multiset().sub(x.to_multiset()));
    assert(collected(fs).to_multiset() =~= collected(failed).to_multiset().add(x.to_multiset()));
}

} // verus!
