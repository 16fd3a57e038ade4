//! Median of ancestor timestamps. The chain is walked backwards from a
//! block hash through the context's parent links, over at most the window the
//! context prescribes, stopping at a genesis block; the median of the
//! collected timestamps (the upper middle element when their count is even)
//! is the manipulation-resistant floor for a new block's timestamp.

use vstd::prelude::*;
use vstd::relations::{sorted_by, total_ordering};
use vstd::seq_lib::lemma_sorted_unique;
use crate::context::MedianTimeContext;

verus! {

/// The order the timestamps are sorted in.
pub open spec fn u64_leq() -> spec_fn(u64, u64) -> bool {
    |x: u64, y: u64| x <= y
}

pub proof fn lemma_u64_leq_total_ordering()
    ensures
        total_ordering(u64_leq()),
{
    let leq = u64_leq();
    assert forall|x: u64| #[trigger] leq(x, x) by {}
    assert forall|x: u64, y: u64| #[trigger] leq(x, y) && #[trigger] leq(y, x) implies x == y by {}
    assert forall|x: u64, y: u64, z: u64|
        #[trigger] leq(x, y) && #[trigger] leq(y, z) implies leq(x, z) by {}
    assert forall|x: u64, y: u64| #[trigger] leq(x, y) || #[trigger] leq(y, x) by {}
}

/// Timestamps of up to `count` chain blocks, walking back from `block_hash`
/// through the context's parent links and stopping once a genesis block
/// (height 0) answers.
pub open spec fn chain_timestamps<M: MedianTimeContext>(
    ctx: &M,
    block_hash: u64,
    count: u64,
) -> Seq<u64>
    decreases count,
{
    if count == 0 {
        Seq::empty()
    } else {
        let t = ctx.spec_timestamp_and_parent(block_hash);
        if t.1 == 0 || count == 1 {
            seq![t.0]
        } else {
            seq![t.0] + chain_timestamps(ctx, t.2, (count - 1) as u64)
        }
    }
}

pub proof fn lemma_chain_timestamps_len<M: MedianTimeContext>(ctx: &M, block_hash: u64, count: u64)
    ensures
        chain_timestamps(ctx, block_hash, count).len() <= count,
        count >= 1 ==> chain_timestamps(ctx, block_hash, count).len() >= 1,
    decreases count,
{
    if count > 1 {
        let t = ctx.spec_timestamp_and_parent(block_hash);
        if t.1 != 0 {
            lemma_chain_timestamps_len(ctx, t.2, (count - 1) as u64);
        }
    }
}

/// The median the protocol uses: the middle element of the sorted
/// timestamps, the greater of the two middles when their count is even.
pub open spec fn spec_median(s: Seq<u64>) -> u64
    recommends
        s.len() > 0,
{
    s.sort_by(u64_leq())[s.len() as int / 2]
}

/// The median timestamp of the chain blocks reached from `block_hash` within
/// the context's window.
pub open spec fn spec_block_median_time<M: MedianTimeContext>(ctx: &M, block_hash: u64) -> u64 {
    spec_median(chain_timestamps(ctx, block_hash, ctx.spec_median_block_count()))
}

/// The median is itself one of the timestamps it is taken over: the floor
/// the timestamp check enforces is always a real ancestor timestamp.
pub proof fn lemma_median_is_a_timestamp(s: Seq<u64>)
    requires
        s.len() > 0,
    ensures
        s.contains(spec_median(s)),
{
    broadcast use vstd::seq_lib::group_to_multiset_ensures;

    let leq = u64_leq();
    lemma_u64_leq_total_ordering();
    s.lemma_sort_by_ensures(leq);
    let sorted = s.sort_by(leq);
    assert(sorted.to_multiset().len() == sorted.len());
    assert(s.to_multiset().len() == s.len());
    assert(sorted.contains(sorted[s.len() as int / 2]));
}

/// Sortedness under `u64_leq`, written out over indices.
pub open spec fn sorted_u64(s: Seq<u64>) -> bool {
    forall|a: int, b: int| #![trigger s[a], s[b]] 0 <= a < b < s.len() ==> s[a] <= s[b]
}

/// Exchanging two distinct positions of a sequence keeps its multiset.
proof fn lemma_swap_multiset(s: Seq<u64>, i: int, j: int)
    requires
        0 <= i < s.len(),
        0 <= j < s.len(),
        i != j,
    ensures
        s.update(i, s[j]).update(j, s[i]).to_multiset() == s.to_multiset(),
{
    broadcast use vstd::seq_lib::group_to_multiset_ensures;
    broadcast use vstd::multiset::group_multiset_axioms;

    let s1 = s.update(i, s[j]);
    let s2 = s1.update(j, s[i]);
    assert(s.contains(s[i]));
    assert(s2.to_multiset() =~= s.to_multiset());
}

fn collect_timestamps<M: MedianTimeContext>(ctx: &M, block_hash: u64, count: u64) -> (r: Vec<u64>)
    requires
        count >= 1,
    ensures
        r@ == chain_timestamps(ctx, block_hash, count),
    decreases count,
{
    let (timestamp, number, parent_hash) = ctx.timestamp_and_parent(block_hash);
    let mut v: Vec<u64> = Vec::new();
    v.push(timestamp);
    if number != 0 && count > 1 {
        let mut rest = collect_timestamps(ctx, parent_hash, count - 1);
        v.append(&mut rest);
    }
    proof {
        assert(v@ =~= chain_timestamps(ctx, block_hash, count));
    }
    v
}

fn sort_timestamps(v: &mut Vec<u64>)
    ensures
        final(v)@.to_multiset() == old(v)@.to_multiset(),
        sorted_u64(final(v)@),
{
    let n = v.len();
    if n <= 1 {
        return ;
    }
    let mut i: usize = 1;
    while i < n
        invariant
            1 <= i <= n,
            n == v@.len(),
            v@.to_multiset() == old(v)@.to_multiset(),
            sorted_u64(v@.subrange(0, i as int)),
        decreases n - i,
    {
        proof {
            assert forall|a: int, b: int| 0 <= a < b <= i as int && b != i as int implies v@[a]
                <= v@[b] by {
                assert(v@.subrange(0, i as int)[a] == v@[a]);
                assert(v@.subrange(0, i as int)[b] == v@[b]);
            }
        }
        let mut j: usize = i;
        while j > 0 && v[j - 1] > v[j]
            invariant
                j <= i < n,
                n == v@.len(),
                v@.to_multiset() == old(v)@.to_multiset(),
                forall|a: int, b: int|
                    #![trigger v@[a], v@[b]]
                    0 <= a < b <= i as int && b != j as int ==> v@[a] <= v@[b],
            decreases j,
        {
            let ghost prev = v@;
            let x = v[j - 1];
            let y = v[j];
            v[j - 1] = y;
            v[j] = x;
            proof {
                lemma_swap_multiset(prev, j - 1, j as int);
                assert(v@ =~= prev.update(j - 1, prev[j as int]).update(j as int, prev[j - 1]));
            }
            j = j - 1;
        }
        proof {
            assert forall|a: int, b: int| 0 <= a < b <= i as int implies v@[a] <= v@[b] by {
                if b == j as int {
                    assert(v@[j - 1] <= v@[j as int]);
                    if a < j - 1 {
                        assert(v@[a] <= v@[j - 1]);
                    }
                }
            }
            assert(sorted_u64(v@.subrange(0, i as int + 1)));
        }
        i = i + 1;
    }
    proof {
        assert(v@.subrange(0, n as int) =~= v@);
    }
}

/// Median timestamp of the ancestor chain reached from `block_hash`: the
/// context's window of timestamps is collected, sorted, and its middle
/// element returned.
pub fn block_median_time<M: MedianTimeContext>(ctx: &M, block_hash: u64) -> (r: u64)
    ensures
        r == spec_block_median_time(ctx, block_hash),
{
    let count = ctx.median_block_count();
    let mut timestamps = collect_timestamps(ctx, block_hash, count);
    proof {
        lemma_chain_timestamps_len(ctx, block_hash, count);
    }
    sort_timestamps(&mut timestamps);
    proof {
        broadcast use vstd::seq_lib::group_to_multiset_ensures;

        let leq = u64_leq();
        let collected = chain_timestamps(ctx, block_hash, ctx.spec_median_block_count());
        lemma_u64_leq_total_ordering();
        collected.lemma_sort_by_ensures(leq);
        assert(collected.sort_by(leq).to_multiset().len() == collected.sort_by(leq).len());
        assert forall|a: int, b: int|
            0 <= a < b < timestamps@.len() implies #[trigger] leq(
            timestamps@[a],
            timestamps@[b],
        ) by {
            assert(timestamps@[a] <= timestamps@[b]);
        }
        assert(sorted_by(timestamps@, leq));
        lemma_sorted_unique(timestamps@, collected.sort_by(leq), leq);
    }
    let mid = timestamps.len() / 2;
    timestamps[mid]
}

} // verus!
