//! The order of the merged list: ascending by priority, and among rows of one
//! priority the order in which the rows were produced.

use vstd::prelude::*;
use crate::launcher::ResultItem;

verus! {

/// Whether `perm` names, for each place of `output`, the place of `input` that
/// the item came from, each place of `input` being named, and `output` is in
/// ascending order of priority with items of one priority in the order that
/// they have in `input`.
pub open spec fn is_stable_sort_by(input: Seq<ResultItem>, output: Seq<ResultItem>, perm: Seq<int>)
    -> bool {
    &&& perm.len() == input.len()
    &&& output.len() == input.len()
    &&& forall|k: int|
        0 <= k < perm.len() ==> 0 <= #[trigger] perm[k] < input.len() && output[k] == input[perm[k]]
    &&& forall|j: int| 0 <= j < input.len() ==> #[trigger] perm.contains(j)
    &&& forall|k: int, l: int|
        0 <= k < l < perm.len() ==> comes_before(
            input,
            #[trigger] perm[k],
            #[trigger] perm[l],
        )
}

/// Whether the item at `a` stands before the item at `b` once `input` is
/// sorted: it has the lower priority, or the same and the earlier place.
pub open spec fn comes_before(input: Seq<ResultItem>, a: int, b: int) -> bool {
    input[a].priority < input[b].priority || (input[a].priority == input[b].priority && a < b)
}

/// Whether `output` is `input` sorted by priority, the order of items of one
/// priority kept.
pub open spec fn is_stable_sort(input: Seq<ResultItem>, output: Seq<ResultItem>) -> bool {
    exists|perm: Seq<int>| is_stable_sort_by(input, output, perm)
}

/// Whether the priorities of `items` ascend.
pub open spec fn is_sorted(items: Seq<ResultItem>) -> bool {
    forall|k: int, l: int|
        0 <= k < l < items.len() ==> (#[trigger] items[k]).priority <= (#[trigger] items[l]).priority
}

/// The place in `sorted` before which an item of priority `priority` goes so
/// that it comes before every item of its own priority.
fn lower_bound(sorted: &Vec<ResultItem>, priority: u32) -> (pos: usize)
    requires
        is_sorted(sorted@),
    ensures
        pos <= sorted.len(),
        forall|k: int| 0 <= k < pos ==> (#[trigger] sorted@[k]).priority < priority,
        forall|k: int| pos <= k < sorted.len() ==> (#[trigger] sorted@[k]).priority >= priority,
{
    let mut pos: usize = 0;
    while pos < sorted.len() && sorted[pos].priority < priority
        invariant
            pos <= sorted.len(),
            forall|k: int| 0 <= k < pos ==> (#[trigger] sorted@[k]).priority < priority,
        decreases sorted.len() - pos,
    {
        pos += 1;
    }
    pos
}

/// Sorts the items by priority, ascending. Items of one priority keep the
/// order in which they came.
pub fn sort_by_priority(items: Vec<ResultItem>) -> (out: Vec<ResultItem>)
    ensures
        is_stable_sort(items@, out@),
        is_sorted(out@),
{
    let ghost input = items@;
    let ghost n = input.len() as int;
    let mut items = items;
    let mut out: Vec<ResultItem> = Vec::new();
    let ghost mut perm: Seq<int> = Seq::empty();
    while items.len() > 0
        invariant
            n == input.len(),
            items@.len() <= n,
            items@ == input.take(items@.len() as int),
            perm.len() == n - items@.len(),
            out@.len() == perm.len(),
            forall|k: int|
                0 <= k < perm.len() ==> items@.len() <= #[trigger] perm[k] < n && out@[k]
                    == input[perm[k]],
            forall|j: int| items@.len() <= j < n ==> #[trigger] perm.contains(j),
            forall|k: int, l: int|
                0 <= k < l < perm.len() ==> comes_before(
                    input,
                    #[trigger] perm[k],
                    #[trigger] perm[l],
                ),
        decreases items@.len(),
    {
        let ghost i = items@.len() - 1;
        let ghost old_perm = perm;
        let ghost old_out = out@;
        let item = items.pop().unwrap();
        proof {
            assert forall|k: int, l: int| 0 <= k < l < old_out.len() implies (
            #[trigger] old_out[k]).priority <= (#[trigger] old_out[l]).priority by {
                assert(comes_before(input, old_perm[k], old_perm[l]));
            }
        }
        let pos = lower_bound(&out, item.priority);
        out.insert(pos, item);
        proof {
            perm = old_perm.insert(pos as int, i);
            assert forall|j: int| i <= j < n implies #[trigger] perm.contains(j) by {
                if j == i {
                    assert(perm[pos as int] == j);
                } else {
                    assert(old_perm.contains(j));
                    let k = choose|k: int| 0 <= k < old_perm.len() && old_perm[k] == j;
                    if k < pos {
                        assert(perm[k] == j);
                    } else {
                        assert(perm[k + 1] == j);
                    }
                }
            }
        }
    }
    proof {
        assert(is_stable_sort_by(input, out@, perm));
        lemma_stable_sort_is_sorted(input, out@);
    }
    out
}

/// A list that was sorted by priority ascends in priority.
pub proof fn lemma_stable_sort_is_sorted(input: Seq<ResultItem>, output: Seq<ResultItem>)
    requires
        is_stable_sort(input, output),
    ensures
        is_sorted(output),
{
    let perm = choose|perm: Seq<int>| is_stable_sort_by(input, output, perm);
    assert forall|k: int, l: int| 0 <= k < l < output.len() implies (#[trigger] output[k]).priority
        <= (#[trigger] output[l]).priority by {
        assert(comes_before(input, perm[k], perm[l]));
    }
}

/// Sorting keeps the order of two items of one priority: of two items of the
/// output that have the same priority, the one that came from the earlier
/// place of the input stands first.
pub proof fn lemma_stable_sort_keeps_ties(
    input: Seq<ResultItem>,
    output: Seq<ResultItem>,
    perm: Seq<int>,
    k: int,
    l: int,
)
    requires
        is_stable_sort_by(input, output, perm),
        0 <= k < perm.len(),
        0 <= l < perm.len(),
        perm[k] < perm[l],
        input[perm[k]].priority == input[perm[l]].priority,
    ensures
        k < l,
{
}

/// There is one way only to sort a list by priority and keep the order of
/// the items of one priority: two outputs of the same input are equal.
pub proof fn lemma_stable_sort_unique(
    input: Seq<ResultItem>,
    first: Seq<ResultItem>,
    second: Seq<ResultItem>,
)
    requires
        is_stable_sort(input, first),
        is_stable_sort(input, second),
    ensures
        first == second,
{
    let p = choose|perm: Seq<int>| is_stable_sort_by(input, first, perm);
    let q = choose|perm: Seq<int>| is_stable_sort_by(input, second, perm);
    lemma_order_unique(input, p, q, input.len() as int);
    assert(q.take(input.len() as int) =~= q);
    assert forall|k: int| 0 <= k < first.len() implies first[k] == second[k] by {
        assert(second[k] == input[q[k]]);
    }
}

/// Whether `perm` names each place of `input` and is in sorted order.
spec fn is_order(input: Seq<ResultItem>, perm: Seq<int>) -> bool {
    &&& perm.len() == input.len()
    &&& forall|k: int| 0 <= k < perm.len() ==> 0 <= #[trigger] perm[k] < input.len()
    &&& forall|j: int| 0 <= j < input.len() ==> #[trigger] perm.contains(j)
    &&& forall|k: int, l: int|
        0 <= k < l < perm.len() ==> comes_before(
            input,
            #[trigger] perm[k],
            #[trigger] perm[l],
        )
}

/// Two sorted orders of the places of one input agree on their first `m`
/// places.
proof fn lemma_order_unique(input: Seq<ResultItem>, p: Seq<int>, q: Seq<int>, m: int)
    requires
        is_order(input, p),
        is_order(input, q),
        0 <= m <= input.len(),
    ensures
        p.take(m) == q.take(m),
    decreases m,
{
    if m > 0 {
        lemma_order_unique(input, p, q, m - 1);
        let k = m - 1;
        assert forall|t: int| 0 <= t < k implies p[t] == q[t] by {
            assert(p.take(k)[t] == q.take(k)[t]);
        }
        // The place that `p` names at `k` is named by `q` somewhere, and not
        // before `k`, where `q` names what `p` names. So `q` names it at `k`
        // or behind, and it is `p` the other way round: were the two places
        // at `k` not the same, each would come before the other.
        if p[k] != q[k] {
            assert(q.contains(p[k]));
            assert(p.contains(q[k]));
        }
    }
}

} // verus!
