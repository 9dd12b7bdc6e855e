//! A stable ordering of positions by integer keys: the positions `0..n`
//! sorted by key, those with equal keys in the order they came.

use vstd::prelude::*;

verus! {

/// Position `i` goes before position `j`: a smaller key, or the same key
/// and an earlier position.
pub open spec fn spec_goes_before(keys: Seq<int>, i: int, j: int) -> bool {
    keys[i] < keys[j] || (keys[i] == keys[j] && i < j)
}

/// `order` lists each position of `keys` once, sorted by key with ties in
/// position order: what a stable sort by key gives.
pub open spec fn spec_sorted_positions(keys: Seq<int>, order: Seq<int>) -> bool {
    &&& order.len() == keys.len()
    &&& forall|k: int| 0 <= k < order.len() ==> 0 <= #[trigger] order[k] < keys.len()
    &&& forall|j: int| 0 <= j < keys.len() ==> #[trigger] order.contains(j)
    &&& forall|a: int, b: int|
        0 <= a < b < order.len() ==> spec_goes_before(keys, #[trigger] order[a], #[trigger] order[b])
}

pub open spec fn spec_int_keys(keys: Seq<i128>) -> Seq<int> {
    keys.map_values(|k: i128| k as int)
}

pub open spec fn spec_positions(order: Seq<usize>) -> Seq<int> {
    order.map_values(|x: usize| x as int)
}

/// Position `j` is in the list.
pub open spec fn spec_listed(order: Seq<usize>, j: int) -> bool {
    exists|w: int| 0 <= w < order.len() && #[trigger] order[w] as int == j
}

/// No two entries of a sorted list of positions are the same.
pub proof fn lemma_sorted_positions_distinct(keys: Seq<int>, order: Seq<int>, a: int, b: int)
    requires
        spec_sorted_positions(keys, order),
        0 <= a < b < order.len(),
    ensures
        order[a] != order[b],
{
    assert(spec_goes_before(keys, order[a], order[b]));
}

/// The positions of `keys` in a stable order by key (an insertion sort).
pub fn stable_order(keys: &Vec<i128>) -> (r: Vec<usize>)
    ensures
        spec_sorted_positions(spec_int_keys(keys@), spec_positions(r@)),
{
    let n = keys.len();
    let ghost ks = spec_int_keys(keys@);
    let mut order: Vec<usize> = Vec::new();
    let mut i: usize = 0;
    while i < n
        invariant
            n == keys@.len(),
            ks == spec_int_keys(keys@),
            i <= n,
            order@.len() == i,
            forall|k: int| 0 <= k < i ==> #[trigger] order@[k] < i,
            forall|j: int| 0 <= j < i ==> spec_listed(order@, j),
            forall|a: int, b: int|
                0 <= a < b < i ==> spec_goes_before(ks, #[trigger] order@[a] as int, #[trigger] order@[b] as int),
        decreases n - i,
    {
        let mut p: usize = 0;
        while p < order.len() && keys[order[p]] <= keys[i]
            invariant
                n == keys@.len(),
                ks == spec_int_keys(keys@),
                i < n,
                order@.len() == i,
                p <= i,
                forall|k: int| 0 <= k < i ==> #[trigger] order@[k] < i,
                forall|k: int| 0 <= k < p ==> !(ks[i as int] < #[trigger] ks[order@[k] as int]),
            decreases i - p,
        {
            p = p + 1;
        }
        let ghost old_order = order@;
        order.insert(p, i);
        proof {
            assert(order@ == old_order.insert(p as int, i));
            assert forall|k: int| 0 <= k < i + 1 implies #[trigger] order@[k] < i + 1 by {
                if k < p {
                    assert(order@[k] == old_order[k]);
                } else if k > p {
                    assert(order@[k] == old_order[k - 1]);
                }
            }
            assert forall|j: int| 0 <= j < i + 1 implies spec_listed(order@, j) by {
                if j == i {
                    assert(order@[p as int] as int == j);
                } else {
                    assert(spec_listed(old_order, j));
                    let w = choose|w: int| 0 <= w < old_order.len() && #[trigger] old_order[w] as int == j;
                    if w < p {
                        assert(order@[w] == old_order[w]);
                    } else {
                        assert(order@[w + 1] == old_order[w]);
                    }
                }
            }
            assert forall|a: int, b: int| 0 <= a < b < i + 1 implies spec_goes_before(
                ks,
                #[trigger] order@[a] as int,
                #[trigger] order@[b] as int,
            ) by {
                if a < p && b < p {
                    assert(spec_goes_before(ks, old_order[a] as int, old_order[b] as int));
                } else if a < p && b == p {
                    assert(!(ks[i as int] < ks[old_order[a] as int]));
                    assert(old_order[a] < i);
                } else if a < p && b > p {
                    assert(spec_goes_before(ks, old_order[a] as int, old_order[b - 1] as int));
                } else if a == p {
                    assert(old_order[b - 1] < i);
                    if p < i {
                        assert(ks[i as int] < ks[old_order[p as int] as int]);
                        if b - 1 > p {
                            assert(spec_goes_before(ks, old_order[p as int] as int, old_order[b - 1] as int));
                        }
                    }
                } else {
                    assert(spec_goes_before(ks, old_order[a - 1] as int, old_order[b - 1] as int));
                }
            }
        }
        i = i + 1;
    }
    let ghost ord = spec_positions(order@);
    proof {
        assert forall|a: int, b: int| 0 <= a < b < ord.len() implies spec_goes_before(
            ks,
            #[trigger] ord[a],
            #[trigger] ord[b],
        ) by {
            assert(spec_goes_before(ks, order@[a] as int, order@[b] as int));
        }
        assert forall|j: int| 0 <= j < ks.len() implies #[trigger] ord.contains(j) by {
            assert(spec_listed(order@, j));
            let w = choose|w: int| 0 <= w < order@.len() && #[trigger] order@[w] as int == j;
            assert(ord[w] == j);
        }
    }
    order
}

} // verus!
