//! A stable ordering of the positions of a list by a two-part key.
//!
//! An ordering is a list of positions. Positions with a smaller key come
//! first; positions with equal keys keep the order they had.

use vstd::prelude::*;

verus! {

/// `a` is smaller than `b`: by the first part, then by the second.
pub open spec fn key_less(a: (i64, i64), b: (i64, i64)) -> bool {
    a.0 < b.0 || (a.0 == b.0 && a.1 < b.1)
}

/// Position `i` is to stand before position `j`: its key is smaller, or the
/// keys are equal and `i` is the earlier position.
pub open spec fn comes_before(keys: Seq<(i64, i64)>, i: usize, j: usize) -> bool {
    key_less(keys[i as int], keys[j as int]) || (keys[i as int] == keys[j as int] && i < j)
}

/// The ordering `order` with position `x` put behind every position whose
/// key is not greater than that of `x`.
pub open spec fn insert_position(keys: Seq<(i64, i64)>, order: Seq<usize>, x: usize) -> Seq<usize>
    decreases order.len(),
{
    if order.len() == 0 {
        seq![x]
    } else if key_less(keys[x as int], keys[order.last() as int]) {
        insert_position(keys, order.drop_last(), x).push(order.last())
    } else {
        order.push(x)
    }
}

/// The first `n` positions of `keys` in stable order.
pub open spec fn stable_order(keys: Seq<(i64, i64)>, n: nat) -> Seq<usize>
    decreases n,
{
    if n == 0 {
        Seq::empty()
    } else {
        insert_position(keys, stable_order(keys, (n - 1) as nat), (n - 1) as usize)
    }
}

/// `order` lists each of the first `n` positions once, each before all that
/// are to stand behind it.
pub open spec fn is_stable_order(keys: Seq<(i64, i64)>, order: Seq<usize>, n: nat) -> bool {
    &&& order.len() == n
    &&& forall|k: int| 0 <= k < order.len() ==> #[trigger] order[k] < n
    &&& forall|a: int, b: int|
        0 <= a < b < order.len() ==> comes_before(keys, #[trigger] order[a], #[trigger] order[b])
    &&& forall|i: usize| i < n ==> #[trigger] order.contains(i)
}

/// `insert_position` puts `x` at the place `j` behind which every key is
/// greater and before which the next key is not.
pub proof fn lemma_insert_position_at(
    keys: Seq<(i64, i64)>,
    order: Seq<usize>,
    x: usize,
    j: int,
)
    requires
        0 <= j <= order.len(),
        forall|k: int| j <= k < order.len() ==> key_less(keys[x as int], keys[#[trigger] order[k] as int]),
        j > 0 ==> !key_less(keys[x as int], keys[order[j - 1] as int]),
    ensures
        insert_position(keys, order, x) == order.insert(j, x),
    decreases order.len(),
{
    if order.len() == 0 {
        assert(seq![x] =~= order.insert(j, x));
    } else if j == order.len() {
        assert(order.push(x) =~= order.insert(j, x));
    } else {
        assert(key_less(keys[x as int], keys[order[order.len() - 1] as int]));
        let front = order.drop_last();
        assert forall|k: int| j <= k < front.len() implies key_less(
            keys[x as int],
            keys[#[trigger] front[k] as int],
        ) by {
            assert(front[k] == order[k]);
        }
        lemma_insert_position_at(keys, front, x, j);
        assert(front.insert(j, x).push(order.last()) =~= order.insert(j, x));
    }
}

/// Putting the next position into a stable order of those before it gives
/// a stable order of one position more.
pub proof fn lemma_insert_keeps_stable(keys: Seq<(i64, i64)>, order: Seq<usize>, x: usize, j: int)
    requires
        is_stable_order(keys, order, x as nat),
        0 <= j <= order.len(),
        x < usize::MAX,
        forall|k: int| j <= k < order.len() ==> key_less(keys[x as int], keys[#[trigger] order[k] as int]),
        j > 0 ==> !key_less(keys[x as int], keys[order[j - 1] as int]),
    ensures
        is_stable_order(keys, order.insert(j, x), (x + 1) as nat),
{
    let next = order.insert(j, x);
    assert forall|a: int, b: int| 0 <= a < b < next.len() implies comes_before(
        keys,
        #[trigger] next[a],
        #[trigger] next[b],
    ) by {
        if b < j {
            assert(next[a] == order[a] && next[b] == order[b]);
        } else if b == j {
            // everything before the place stands before what is just before it
            assert(next[a] == order[a]);
            assert(order[a] < x);
            if a < j - 1 {
                assert(comes_before(keys, order[a], order[j - 1]));
            }
        } else if a < j {
            assert(next[a] == order[a] && next[b] == order[b - 1]);
        } else if a == j {
            assert(next[b] == order[b - 1]);
        } else {
            assert(next[a] == order[a - 1] && next[b] == order[b - 1]);
        }
    }
    assert forall|k: int| 0 <= k < next.len() implies #[trigger] next[k] < x + 1 by {
        if k < j {
            assert(next[k] == order[k]);
        } else if k > j {
            assert(next[k] == order[k - 1]);
        }
    }
    assert forall|i: usize| i < x + 1 implies #[trigger] next.contains(i) by {
        if i == x {
            assert(next[j] == x);
        } else {
            assert(order.contains(i));
            let k = choose|k: int| 0 <= k < order.len() && order[k] == i;
            if k < j {
                assert(next[k] == i);
            } else {
                assert(next[k + 1] == i);
            }
        }
    }
}

/// The place at which `insert_position` puts `x`.
pub open spec fn insertion_place(keys: Seq<(i64, i64)>, order: Seq<usize>, x: usize) -> int
    decreases order.len(),
{
    if order.len() == 0 {
        0
    } else if key_less(keys[x as int], keys[order.last() as int]) {
        insertion_place(keys, order.drop_last(), x)
    } else {
        order.len() as int
    }
}

proof fn lemma_insertion_place(keys: Seq<(i64, i64)>, order: Seq<usize>, x: usize)
    ensures
        0 <= insertion_place(keys, order, x) <= order.len(),
        forall|k: int|
            insertion_place(keys, order, x) <= k < order.len() ==> key_less(
                keys[x as int],
                keys[#[trigger] order[k] as int],
            ),
        insertion_place(keys, order, x) > 0 ==> !key_less(
            keys[x as int],
            keys[order[insertion_place(keys, order, x) - 1] as int],
        ),
    decreases order.len(),
{
    if order.len() == 0 {
    } else if key_less(keys[x as int], keys[order.last() as int]) {
        let front = order.drop_last();
        lemma_insertion_place(keys, front, x);
        let j = insertion_place(keys, front, x);
        assert forall|k: int| j <= k < order.len() implies key_less(
            keys[x as int],
            keys[#[trigger] order[k] as int],
        ) by {
            if k < front.len() {
                assert(front[k] == order[k]);
            }
        }
        if j > 0 {
            assert(front[j - 1] == order[j - 1]);
        }
    } else {
    }
}

/// The stable order of the first `n` positions lists each of them once,
/// smaller keys first and equal keys in the order of their positions.
pub proof fn lemma_stable_order(keys: Seq<(i64, i64)>, n: nat)
    requires
        n <= usize::MAX,
    ensures
        is_stable_order(keys, stable_order(keys, n), n),
    decreases n,
{
    if n == 0 {
    } else {
        let x = (n - 1) as usize;
        let before = stable_order(keys, (n - 1) as nat);
        lemma_stable_order(keys, (n - 1) as nat);
        lemma_insertion_place(keys, before, x);
        let j = insertion_place(keys, before, x);
        lemma_insert_position_at(keys, before, x, j);
        lemma_insert_keeps_stable(keys, before, x, j);
    }
}

/// Two stable orders of the same positions agree up to place `k`.
proof fn lemma_stable_orders_agree(
    keys: Seq<(i64, i64)>,
    first: Seq<usize>,
    second: Seq<usize>,
    n: nat,
    k: int,
)
    requires
        is_stable_order(keys, first, n),
        is_stable_order(keys, second, n),
        0 <= k < n,
    ensures
        forall|j: int| 0 <= j <= k ==> first[j] == second[j],
    decreases k,
{
    if k > 0 {
        lemma_stable_orders_agree(keys, first, second, n, k - 1);
    }
    if first[k] != second[k] {
        assert(second.contains(first[k]));
        let m = choose|m: int| 0 <= m < second.len() && second[m] == first[k];
        if m < k {
            assert(first[m] == second[m]);
            assert(comes_before(keys, first[m], first[k]));
        }
        assert(comes_before(keys, second[k], second[m]));
        assert(first.contains(second[k]));
        let w = choose|w: int| 0 <= w < first.len() && first[w] == second[k];
        if w < k {
            assert(first[w] == second[w]);
            assert(comes_before(keys, second[w], second[k]));
        }
        assert(comes_before(keys, first[k], first[w]));
    }
}

/// There is one stable order only: what `is_stable_order` says of an
/// ordering holds of no other.
pub proof fn lemma_stable_order_unique(
    keys: Seq<(i64, i64)>,
    first: Seq<usize>,
    second: Seq<usize>,
    n: nat,
)
    requires
        is_stable_order(keys, first, n),
        is_stable_order(keys, second, n),
    ensures
        first == second,
{
    if n > 0 {
        lemma_stable_orders_agree(keys, first, second, n, n - 1);
    }
    assert(first =~= second);
}

/// Whether key `a` is smaller than key `b`.
pub fn key_is_less(a: (i64, i64), b: (i64, i64)) -> (r: bool)
    ensures
        r == key_less(a, b),
{
    a.0 < b.0 || (a.0 == b.0 && a.1 < b.1)
}

/// The positions of `keys` in stable order.
pub fn stable_order_of(keys: &Vec<(i64, i64)>) -> (order: Vec<usize>)
    ensures
        order@ == stable_order(keys@, keys@.len()),
        is_stable_order(keys@, order@, keys@.len()),
{
    let n: usize = keys.len();
    let mut order: Vec<usize> = Vec::new();
    let mut x: usize = 0;
    while x < n
        invariant
            n == keys.len(),
            x <= n,
            order@ == stable_order(keys@, x as nat),
            is_stable_order(keys@, order@, x as nat),
        decreases n - x,
    {
        let mut j: usize = order.len();
        while j > 0 && key_is_less(keys[x], keys[order[j - 1]])
            invariant
                n == keys.len(),
                x < n,
                j <= order.len(),
                is_stable_order(keys@, order@, x as nat),
                forall|k: int|
                    j <= k < order.len() ==> key_less(keys@[x as int], keys@[#[trigger] order@[k] as int]),
            decreases j,
        {
            j = j - 1;
        }
        proof {
            lemma_insert_position_at(keys@, order@, x, j as int);
            lemma_insert_keeps_stable(keys@, order@, x, j as int);
        }
        order.insert(j, x);
        x = x + 1;
    }
    order
}

} // verus!
