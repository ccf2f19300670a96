//! The order in which combatants act in a round: fastest first, and among
//! equally fast combatants the one listed first (player team before enemy team).
use vstd::prelude::*;

verus! {

/// `order` lists each of the indices `0..keys.len()` once.
pub open spec fn is_index_permutation(order: Seq<usize>, n: nat) -> bool {
    &&& order.len() == n
    &&& forall|i: int| 0 <= i < order.len() ==> (#[trigger] order[i]) < n
    &&& forall|i: int, j: int| 0 <= i < j < order.len() ==> order[i] != order[j]
}

/// `order` lists the indices by descending key, ties kept in index order.
pub open spec fn is_stable_descending(order: Seq<usize>, keys: Seq<u32>) -> bool {
    &&& forall|i: int, j: int|
        0 <= i < j < order.len() ==> keys[order[i] as int] >= keys[order[j] as int]
    &&& forall|i: int, j: int|
        0 <= i < j < order.len() && keys[order[i] as int] == keys[order[j] as int] ==> order[i]
            < order[j]
}

/// The turn order of a round: the indices of all combatants (the player team's
/// first, then the enemy team's) sorted by descending speed key, a stable sort.
/// `speed_keys[i]` is an order-preserving integer image of combatant `i`'s speed.
pub fn calculate_order(speed_keys: &Vec<u32>) -> (order: Vec<usize>)
    ensures
        is_index_permutation(order@, speed_keys@.len()),
        is_stable_descending(order@, speed_keys@),
        forall|i: usize| i < speed_keys@.len() ==> order@.contains(i),
{
    let n = speed_keys.len();
    let ghost keys = speed_keys@;
    let mut order: Vec<usize> = Vec::new();
    let mut k: usize = 0;
    while k < n
        invariant
            n == keys.len(),
            keys == speed_keys@,
            k <= n,
            order@.len() == k,
            forall|i: int| 0 <= i < order@.len() ==> (#[trigger] order@[i]) < k,
            forall|i: int, j: int| 0 <= i < j < order@.len() ==> order@[i] != order@[j],
            is_stable_descending(order@, keys),
        decreases n - k,
    {
        let key = speed_keys[k];
        // the first position whose key is below `key`
        let mut p: usize = 0;
        while p < order.len() && speed_keys[order[p]] >= key
            invariant
                n == keys.len(),
                keys == speed_keys@,
                k < n,
                key == keys[k as int],
                order@.len() == k,
                forall|i: int| 0 <= i < order@.len() ==> (#[trigger] order@[i]) < k,
                p <= order@.len(),
                forall|i: int| 0 <= i < p ==> keys[(#[trigger] order@[i]) as int] >= key,
            decreases order@.len() - p,
        {
            p = p + 1;
        }
        let ghost before = order@;
        proof {
            if p < before.len() {
                assert(keys[before[p as int] as int] < key);
            }
        }
        order.insert(p, k);
        proof {
            let after = order@;
            assert(after =~= before.subrange(0, p as int).push(k as usize) + before.subrange(
                p as int,
                before.len() as int,
            ));
            assert forall|i: int| 0 <= i < after.len() implies (#[trigger] after[i]) < k + 1 by {
                if i < p {
                    assert(after[i] == before[i]);
                } else if i > p {
                    assert(after[i] == before[i - 1]);
                }
            }
            assert forall|i: int, j: int| 0 <= i < j < after.len() implies after[i] != after[j] by {
                if i < p {
                    assert(after[i] == before[i]);
                }
                if i > p {
                    assert(after[i] == before[i - 1]);
                }
                if j < p {
                    assert(after[j] == before[j]);
                }
                if j > p {
                    assert(after[j] == before[j - 1]);
                }
            }
            assert forall|i: int, j: int| 0 <= i < j < after.len() implies keys[after[i] as int]
                >= keys[after[j] as int] by {
                if j < p {
                    assert(after[i] == before[i] && after[j] == before[j]);
                } else if j == p {
                    assert(after[i] == before[i]);
                } else if i == p {
                    assert(after[j] == before[j - 1]);
                    assert(keys[before[p as int] as int] < key);
                    if j - 1 > p {
                        assert(keys[before[p as int] as int] >= keys[before[j - 1] as int]);
                    }
                } else if i < p {
                    assert(after[i] == before[i] && after[j] == before[j - 1]);
                } else {
                    assert(after[i] == before[i - 1] && after[j] == before[j - 1]);
                }
            }
            assert forall|i: int, j: int|
                0 <= i < j < after.len() && keys[after[i] as int] == keys[after[j] as int]
                implies after[i] < after[j] by {
                if j < p {
                    assert(after[i] == before[i] && after[j] == before[j]);
                } else if j == p {
                    assert(after[i] == before[i]);
                } else if i == p {
                    assert(after[j] == before[j - 1]);
                    assert(keys[before[p as int] as int] < key);
                    if j - 1 > p {
                        assert(keys[before[p as int] as int] >= keys[before[j - 1] as int]);
                    }
                } else if i < p {
                    assert(after[i] == before[i] && after[j] == before[j - 1]);
                } else {
                    assert(after[i] == before[i - 1] && after[j] == before[j - 1]);
                }
            }
        }
        k = k + 1;
    }
    proof {
        lemma_permutation_covers(order@, n as nat);
    }
    order
}

/// The indices below `n`.
pub open spec fn indices_below(n: nat) -> Set<usize> {
    Set::new(|i: usize| i < n)
}

proof fn lemma_indices_below_len(n: nat)
    requires
        n <= usize::MAX + 1,
    ensures
        indices_below(n).finite(),
        indices_below(n).len() == n,
    decreases n,
{
    if n == 0 {
        assert(indices_below(0) =~= Set::<usize>::empty());
    } else {
        lemma_indices_below_len((n - 1) as nat);
        let last = (n - 1) as usize;
        assert(indices_below(n) =~= indices_below((n - 1) as nat).insert(last));
    }
}

/// An order that lists indices of `0..n` once each lists every one of them.
pub proof fn lemma_permutation_covers(order: Seq<usize>, n: nat)
    requires
        is_index_permutation(order, n),
    ensures
        forall|i: usize| i < n ==> order.contains(i),
{
    broadcast use vstd::set::group_set_axioms;
    broadcast use vstd::seq_lib::seq_to_set_is_finite;
    assert(order.no_duplicates());
    order.unique_seq_to_set();
    let s = order.to_set();
    if n > 0 {
        assert(order[0] < n);
    }
    assert(n <= usize::MAX + 1) by {
        if n > usize::MAX + 1 {
            assert(s.subset_of(indices_below((usize::MAX + 1) as nat)));
            lemma_indices_below_len((usize::MAX + 1) as nat);
            vstd::set_lib::lemma_len_subset(s, indices_below((usize::MAX + 1) as nat));
        }
    }
    lemma_indices_below_len(n);
    assert(s.subset_of(indices_below(n))) by {
        assert forall|x: usize| s.contains(x) implies indices_below(n).contains(x) by {
            let k = choose|k: int| 0 <= k < order.len() && order[k] == x;
        }
    }
    vstd::set_lib::lemma_subset_equality(s, indices_below(n));
    assert forall|i: usize| i < n implies order.contains(i) by {
        assert(indices_below(n).contains(i));
        assert(s.contains(i));
    }
}

/// The turn order is fixed by the speed keys: two orders that both list every
/// index once, fastest first with ties by index, are the same order.
pub proof fn lemma_order_unique(a: Seq<usize>, b: Seq<usize>, keys: Seq<u32>)
    requires
        is_index_permutation(a, keys.len()),
        is_index_permutation(b, keys.len()),
        is_stable_descending(a, keys),
        is_stable_descending(b, keys),
    ensures
        a == b,
{
    lemma_permutation_covers(a, keys.len());
    lemma_permutation_covers(b, keys.len());
    lemma_orders_agree_below(a, b, keys, a.len());
    assert(a =~= b);
}

proof fn lemma_orders_agree_below(a: Seq<usize>, b: Seq<usize>, keys: Seq<u32>, k: nat)
    requires
        is_index_permutation(a, keys.len()),
        is_index_permutation(b, keys.len()),
        is_stable_descending(a, keys),
        is_stable_descending(b, keys),
        forall|i: usize| i < keys.len() ==> a.contains(i),
        forall|i: usize| i < keys.len() ==> b.contains(i),
        k <= a.len(),
    ensures
        forall|j: int| 0 <= j < k ==> a[j] == b[j],
    decreases k,
{
    if k > 0 {
        lemma_orders_agree_below(a, b, keys, (k - 1) as nat);
        let m = k - 1;
        let x = a[m as int];
        let y = b[m as int];
        if x != y {
            assert(b.contains(x));
            let p = choose|p: int| 0 <= p < b.len() && b[p] == x;
            assert(a.contains(y));
            let q = choose|q: int| 0 <= q < a.len() && a[q] == y;
            // neither can sit before position m, where the two orders agree
            if p < m {
                assert(a[p] == b[p]);
            }
            if q < m {
                assert(a[q] == b[q]);
            }
            assert(p > m && q > m);
            // in `a`, x comes before y; in `b`, y comes before x
            assert(keys[x as int] >= keys[y as int]);
            assert(keys[y as int] >= keys[x as int]);
            assert(x < y);
            assert(y < x);
        }
    }
}

} // verus!
