//! Collections of registered items, put back in document order.

use vstd::prelude::*;

verus! {

/// `order` lists every index below `n` exactly once.
pub open spec fn is_permutation(order: Seq<usize>, n: int) -> bool {
    &&& order.len() == n
    &&& order.no_duplicates()
    &&& forall|i: int| 0 <= i < order.len() ==> (order[i] as int) < n
}

/// Along `order` the keys never decrease, and items with equal keys keep
/// their original relative order.
pub open spec fn is_stably_sorted(order: Seq<usize>, keys: Seq<i32>) -> bool {
    forall|i: int, j: int|
        #![trigger order[i], order[j]]
        0 <= i < j < order.len() ==> {
            &&& keys[order[i] as int] <= keys[order[j] as int]
            &&& (keys[order[i] as int] == keys[order[j] as int] ==> order[i] < order[j])
        }
}

/// The order in which registered items appear in the document, given the
/// position of each item's element among the collection's elements (as the
/// document reports it). Items are sorted by that position; items that
/// report the same position keep the order they were listed in.
pub fn order_by_position(keys: &Vec<i32>) -> (r: Vec<usize>)
    ensures
        is_permutation(r@, keys@.len() as int),
        is_stably_sorted(r@, keys@),
{
    let n = keys.len();
    let mut order: Vec<usize> = Vec::new();
    let mut k: usize = 0;
    while k < n
        invariant
            n == keys@.len(),
            k <= n,
            is_permutation(order@, k as int),
            is_stably_sorted(order@, keys@),
        decreases n - k,
    {
        let key = keys[k];
        let mut p: usize = 0;
        while p < order.len() && keys[order[p]] <= key
            invariant
                n == keys@.len(),
                k < n,
                is_permutation(order@, k as int),
                p <= order@.len(),
                forall|q: int| 0 <= q < p ==> keys@[order@[q] as int] <= key,
            decreases order@.len() - p,
        {
            p = p + 1;
        }
        let ghost before = order@;
        proof {
            assert forall|q: int| p <= q < before.len() implies keys@[before[q] as int] > key by {
                if q > p {
                    assert(keys@[before[p as int] as int] <= keys@[before[q] as int]);
                }
            }
        }
        order.insert(p, k);
        proof {
            let after = order@;
            assert(after =~= before.insert(p as int, k));
            assert forall|i: int| 0 <= i < after.len() implies (after[i] as int) < k + 1 by {
                if i < p {
                    assert(after[i] == before[i]);
                } else if i > p {
                    assert(after[i] == before[i - 1]);
                }
            }
            assert forall|i: int, j: int|
                0 <= i < after.len() && 0 <= j < after.len() && i != j implies after[i]
                != after[j] by {
                let bi = if i < p {
                    i
                } else {
                    i - 1
                };
                let bj = if j < p {
                    j
                } else {
                    j - 1
                };
                if i != p && j != p {
                    assert(after[i] == before[bi]);
                    assert(after[j] == before[bj]);
                } else if i == p {
                    assert(after[j] == before[bj]);
                    assert((before[bj] as int) < k);
                } else {
                    assert(after[i] == before[bi]);
                    assert((before[bi] as int) < k);
                }
            }
            assert forall|i: int, j: int| #![trigger after[i], after[j]] 0 <= i < j < after.len() implies {
                &&& keys@[after[i] as int] <= keys@[after[j] as int]
                &&& (keys@[after[i] as int] == keys@[after[j] as int] ==> after[i] < after[j])
            } by {
                if j < p {
                    assert(after[i] == before[i]);
                    assert(after[j] == before[j]);
                } else if j == p {
                    assert(after[i] == before[i]);
                    assert((before[i] as int) < k);
                } else if i < p {
                    assert(after[i] == before[i]);
                    assert(after[j] == before[j - 1]);
                    assert(keys@[before[i] as int] <= key);
                    assert(keys@[before[j - 1] as int] > key);
                } else if i == p {
                    assert(after[j] == before[j - 1]);
                    assert(keys@[before[j - 1] as int] > key);
                } else {
                    assert(after[i] == before[i - 1]);
                    assert(after[j] == before[j - 1]);
                }
            }
        }
        k = k + 1;
    }
    order
}

/// The positions below `n`.
spec fn below(n: nat) -> Set<usize> {
    Set::new(|x: usize| (x as nat) < n)
}

proof fn lemma_below_len(n: nat)
    requires
        n <= usize::MAX + 1,
    ensures
        below(n).finite(),
        below(n).len() == n,
    decreases n,
{
    if n == 0 {
        assert(below(0) =~= Set::<usize>::empty());
    } else {
        lemma_below_len((n - 1) as nat);
        assert(below((n - 1) as nat).insert((n - 1) as usize) =~= below(n));
        assert(!below((n - 1) as nat).contains((n - 1) as usize));
    }
}

/// A permutation of the positions below `n` holds each of them.
proof fn lemma_permutation_holds_all(order: Seq<usize>, n: int)
    requires
        is_permutation(order, n),
        n <= usize::MAX,
    ensures
        forall|x: usize| order.contains(x) <==> (x as int) < n,
{
    order.unique_seq_to_set();
    lemma_below_len(n as nat);
    assert(order.to_set().subset_of(below(n as nat))) by {
        assert forall|x: usize| order.to_set().contains(x) implies below(n as nat).contains(x) by {
            let i = choose|i: int| 0 <= i < order.len() && order[i] == x;
        }
    }
    vstd::set_lib::lemma_len_subset(order.to_set(), below(n as nat));
    vstd::set_lib::lemma_subset_equality(order.to_set(), below(n as nat));
    assert forall|x: usize| order.contains(x) <==> (x as int) < n by {
        assert(order.to_set().contains(x) == below(n as nat).contains(x));
    }
}

/// Two duplicate-free sequences with the same elements, both stably sorted
/// by the same keys, are equal.
proof fn lemma_sorted_same_elements(a: Seq<usize>, b: Seq<usize>, keys: Seq<i32>)
    requires
        a.no_duplicates(),
        b.no_duplicates(),
        forall|x: usize| a.contains(x) <==> b.contains(x),
        is_stably_sorted(a, keys),
        is_stably_sorted(b, keys),
    ensures
        a == b,
    decreases a.len(),
{
    if a.len() == 0 {
        if b.len() > 0 {
            assert(b.contains(b[0]));
        }
        assert(a =~= b);
    } else {
        assert(a.contains(a[0]));
        let j = choose|j: int| 0 <= j < b.len() && b[j] == a[0];
        assert(b.contains(b[0]));
        let i = choose|i: int| 0 <= i < a.len() && a[i] == b[0];
        if a[0] != b[0] {
            assert(i > 0 && j > 0);
            assert(keys[a[0] as int] <= keys[a[i] as int]);
            assert(keys[b[0] as int] <= keys[b[j] as int]);
            assert(false);
        }
        let a2 = a.drop_first();
        let b2 = b.drop_first();
        assert forall|x: usize| a2.contains(x) <==> b2.contains(x) by {
            if a2.contains(x) {
                let k = choose|k: int| 0 <= k < a2.len() && a2[k] == x;
                assert(a[k + 1] == x);
                assert(x != a[0]);
                assert(a.contains(x));
                let m = choose|m: int| 0 <= m < b.len() && b[m] == x;
                assert(m != 0);
                assert(b2[m - 1] == x);
            }
            if b2.contains(x) {
                let k = choose|k: int| 0 <= k < b2.len() && b2[k] == x;
                assert(b[k + 1] == x);
                assert(x != b[0]);
                assert(b.contains(x));
                let m = choose|m: int| 0 <= m < a.len() && a[m] == x;
                assert(m != 0);
                assert(a2[m - 1] == x);
            }
        }
        assert(a2.no_duplicates()) by {
            assert forall|p: int, q: int| 0 <= p < a2.len() && 0 <= q < a2.len() && p != q implies a2[p]
                != a2[q] by {
                assert(a2[p] == a[p + 1] && a2[q] == a[q + 1]);
            }
        }
        assert(b2.no_duplicates()) by {
            assert forall|p: int, q: int| 0 <= p < b2.len() && 0 <= q < b2.len() && p != q implies b2[p]
                != b2[q] by {
                assert(b2[p] == b[p + 1] && b2[q] == b[q + 1]);
            }
        }
        assert(is_stably_sorted(a2, keys)) by {
            assert forall|p: int, q: int| #![trigger a2[p], a2[q]] 0 <= p < q < a2.len() implies {
                &&& keys[a2[p] as int] <= keys[a2[q] as int]
                &&& (keys[a2[p] as int] == keys[a2[q] as int] ==> a2[p] < a2[q])
            } by {
                assert(a2[p] == a[p + 1] && a2[q] == a[q + 1]);
            }
        }
        assert(is_stably_sorted(b2, keys)) by {
            assert forall|p: int, q: int| #![trigger b2[p], b2[q]] 0 <= p < q < b2.len() implies {
                &&& keys[b2[p] as int] <= keys[b2[q] as int]
                &&& (keys[b2[p] as int] == keys[b2[q] as int] ==> b2[p] < b2[q])
            } by {
                assert(b2[p] == b[p + 1] && b2[q] == b[q + 1]);
            }
        }
        lemma_sorted_same_elements(a2, b2, keys);
        assert(a =~= seq![a[0]] + a2);
        assert(b =~= seq![b[0]] + b2);
    }
}

/// The document order is fully determined: any two orders of the same items
/// that are both stably sorted by the same positions are the same order.
pub proof fn lemma_order_is_unique(a: Seq<usize>, b: Seq<usize>, keys: Seq<i32>)
    requires
        keys.len() <= usize::MAX,
        is_permutation(a, keys.len() as int),
        is_permutation(b, keys.len() as int),
        is_stably_sorted(a, keys),
        is_stably_sorted(b, keys),
    ensures
        a == b,
{
    lemma_permutation_holds_all(a, keys.len() as int);
    lemma_permutation_holds_all(b, keys.len() as int);
    lemma_sorted_same_elements(a, b, keys);
}

} // verus!
