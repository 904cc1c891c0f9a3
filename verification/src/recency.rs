//! Ordering candidates from the newest to the oldest.
//!
//! Candidates are known by their position in a list and by a key, the
//! instant they were created or published at. The newest-first order puts
//! larger keys first and keeps candidates with equal keys in the order of
//! their positions. There is exactly one such order for every list of keys.
use vstd::prelude::*;

verus! {

/// Whether position `a` comes before position `b` in the newest-first order:
/// it has the later key, or the same key and the earlier position.
pub open spec fn comes_before(keys: Seq<i128>, a: int, b: int) -> bool {
    keys[a] > keys[b] || (keys[a] == keys[b] && a < b)
}

/// Whether position `a` is listed in `order`.
pub open spec fn occurs_in(order: Seq<int>, a: int) -> bool {
    exists|i: int| 0 <= i < order.len() && #[trigger] order[i] == a
}

/// Whether `order` is the newest-first order of the positions of `keys`:
/// it lists every position, once, from the latest key to the earliest.
pub open spec fn is_newest_first(keys: Seq<i128>, order: Seq<int>) -> bool {
    &&& order.len() == keys.len()
    &&& forall|i: int| 0 <= i < order.len() ==> 0 <= #[trigger] order[i] < keys.len()
    &&& forall|a: int| 0 <= a < keys.len() ==> #[trigger] occurs_in(order, a)
    &&& forall|i: int, j: int|
        0 <= i < j < order.len() ==> comes_before(
            keys,
            #[trigger] order[i],
            #[trigger] order[j],
        )
}

/// The newest-first order of the positions of `keys`.
pub open spec fn newest_first(keys: Seq<i128>) -> Seq<int> {
    choose|order: Seq<int>| is_newest_first(keys, order)
}

/// Whether `p` is the position of the most recent key: no key is later, and
/// of the positions that hold the latest key it is the first.
pub open spec fn is_most_recent(keys: Seq<i128>, p: int) -> bool {
    &&& 0 <= p < keys.len()
    &&& forall|j: int| 0 <= j < keys.len() ==> keys[j] <= keys[p]
    &&& forall|j: int| 0 <= j < p ==> keys[j] < keys[p]
}

/// The position of the most recent of `keys`, which must not be empty.
pub open spec fn most_recent(keys: Seq<i128>) -> int {
    choose|p: int| is_most_recent(keys, p)
}

/// Two newest-first orders of the same keys agree up to position `upto`.
proof fn lemma_orders_agree_upto(keys: Seq<i128>, o1: Seq<int>, o2: Seq<int>, upto: int)
    requires
        is_newest_first(keys, o1),
        is_newest_first(keys, o2),
        0 <= upto <= keys.len(),
    ensures
        forall|i: int| 0 <= i < upto ==> o1[i] == o2[i],
    decreases upto,
{
    if upto > 0 {
        lemma_orders_agree_upto(keys, o1, o2, upto - 1);
        let i = upto - 1;
        let a = o1[i];
        let b = o2[i];
        if a != b {
            assert(occurs_in(o2, a));
            assert(occurs_in(o1, b));
            let p = choose|p: int| 0 <= p < o2.len() && #[trigger] o2[p] == a;
            let q = choose|q: int| 0 <= q < o1.len() && #[trigger] o1[q] == b;
            // Neither can sit before position `i`: there the orders agree,
            // and an order holds no position twice.
            if p < i {
                assert(o1[p] == o2[p]);
                assert(comes_before(keys, o1[p], o1[i]));
            }
            if q < i {
                assert(o2[q] == o1[q]);
                assert(comes_before(keys, o2[q], o2[i]));
            }
            assert(comes_before(keys, o2[i], o2[p]));
            assert(comes_before(keys, o1[i], o1[q]));
        }
    }
}

/// Every list of keys has exactly one newest-first order: any order that
/// meets `is_newest_first` is the one that `newest_first` names.
pub proof fn lemma_newest_first_is_unique(keys: Seq<i128>, order: Seq<int>)
    requires
        is_newest_first(keys, order),
    ensures
        order == newest_first(keys),
{
    let other = newest_first(keys);
    lemma_orders_agree_upto(keys, order, other, keys.len() as int);
    assert(order =~= other);
}

/// The newest-first order starts with the most recent position.
pub proof fn lemma_newest_first_starts_with_most_recent(keys: Seq<i128>, order: Seq<int>)
    requires
        is_newest_first(keys, order),
        keys.len() > 0,
    ensures
        is_most_recent(keys, order[0]),
{
    let p = order[0];
    assert forall|j: int| 0 <= j < keys.len() implies keys[j] <= keys[p] && (j < p ==> keys[j]
        < keys[p]) by {
        assert(occurs_in(order, j));
        let i = choose|i: int| 0 <= i < order.len() && #[trigger] order[i] == j;
        if i > 0 {
            assert(comes_before(keys, order[0], order[i]));
        }
    }
}

/// At most one position is the most recent.
pub proof fn lemma_most_recent_is_unique(keys: Seq<i128>, p: int, q: int)
    requires
        is_most_recent(keys, p),
        is_most_recent(keys, q),
    ensures
        p == q,
{
    if p < q {
        assert(keys[p] < keys[q]);
        assert(keys[q] <= keys[p]);
    }
    if q < p {
        assert(keys[q] < keys[p]);
        assert(keys[p] <= keys[q]);
    }
}

/// The position of the most recent key; `None` exactly when there is no key.
pub fn most_recent_position(keys: &Vec<i128>) -> (r: Option<usize>)
    ensures
        r.is_none() <==> keys@.len() == 0,
        r matches Some(p) ==> is_most_recent(keys@, p as int),
{
    if keys.len() == 0 {
        return None;
    }
    let mut best: usize = 0;
    let mut i: usize = 1;
    while i < keys.len()
        invariant
            1 <= i <= keys.len(),
            0 <= best < i,
            forall|j: int| 0 <= j < i ==> keys@[j] <= keys@[best as int],
            forall|j: int| 0 <= j < best ==> keys@[j] < keys@[best as int],
        decreases keys.len() - i,
    {
        if keys[i] > keys[best] {
            best = i;
        }
        i = i + 1;
    }
    Some(best)
}

/// Putting the last position of `keys` into the newest-first order of the
/// positions before it, behind every position whose key is not earlier,
/// gives the newest-first order of all of them.
proof fn lemma_insert_last(keys: Seq<i128>, before: Seq<int>, p: int)
    requires
        keys.len() > 0,
        is_newest_first(keys.take(keys.len() - 1), before),
        0 <= p <= before.len(),
        forall|i: int| 0 <= i < p ==> keys[#[trigger] before[i]] >= keys[keys.len() - 1],
        p < before.len() ==> keys[before[p]] < keys[keys.len() - 1],
    ensures
        is_newest_first(keys, before.insert(p, keys.len() - 1)),
{
    let n = keys.len() - 1;
    let known = keys.take(n);
    let after = before.insert(p, n);
    assert forall|i: int| 0 <= i < after.len() implies 0 <= #[trigger] after[i] < keys.len() by {
        if i < p {
            assert(after[i] == before[i]);
        } else if i > p {
            assert(after[i] == before[i - 1]);
        }
    }
    assert forall|a: int| 0 <= a < keys.len() implies #[trigger] occurs_in(after, a) by {
        if a == n {
            assert(after[p] == a);
        } else {
            assert(occurs_in(before, a));
            let i = choose|i: int| 0 <= i < before.len() && #[trigger] before[i] == a;
            if i < p {
                assert(after[i] == a);
            } else {
                assert(after[i + 1] == a);
            }
        }
    }
    assert forall|i: int, j: int| 0 <= i < j < after.len() implies comes_before(
        keys,
        #[trigger] after[i],
        #[trigger] after[j],
    ) by {
        let bi = if i < p {
            i
        } else {
            i - 1
        };
        let bj = if j < p {
            j
        } else {
            j - 1
        };
        if i != p {
            assert(after[i] == before[bi]);
            assert(0 <= before[bi] < known.len());
            assert(keys[after[i]] == known[before[bi]]);
        }
        if j != p {
            assert(after[j] == before[bj]);
            assert(0 <= before[bj] < known.len());
            assert(keys[after[j]] == known[before[bj]]);
        }
        if i != p && j != p {
            assert(comes_before(known, before[bi], before[bj]));
        } else if j == p {
            // `after[i]` kept its place in front: its key is not earlier.
            assert(keys[before[i]] >= keys[n]);
        } else {
            // `after[j]` was at or behind the place of insertion.
            assert(0 <= before[p] < known.len());
            if bj > p {
                assert(comes_before(known, before[p], before[bj]));
            }
        }
    }
}

/// The first place at or after `from` in `order` whose key is earlier than
/// the last key of `keys`; the length of `order` if there is none.
spec fn first_earlier(keys: Seq<i128>, order: Seq<int>, from: int) -> int
    decreases order.len() - from,
{
    if from < 0 || from >= order.len() {
        order.len() as int
    } else if keys[order[from]] < keys[keys.len() - 1] {
        from
    } else {
        first_earlier(keys, order, from + 1)
    }
}

proof fn lemma_first_earlier(keys: Seq<i128>, order: Seq<int>, from: int)
    requires
        0 <= from <= order.len(),
    ensures
        from <= first_earlier(keys, order, from) <= order.len(),
        forall|i: int|
            from <= i < first_earlier(keys, order, from) ==> keys[#[trigger] order[i]]
                >= keys[keys.len() - 1],
        first_earlier(keys, order, from) < order.len() ==> keys[order[first_earlier(
            keys,
            order,
            from,
        )]] < keys[keys.len() - 1],
    decreases order.len() - from,
{
    if from < order.len() && !(keys[order[from]] < keys[keys.len() - 1]) {
        lemma_first_earlier(keys, order, from + 1);
    }
}

/// Every list of keys has a newest-first order.
pub proof fn lemma_newest_first_exists(keys: Seq<i128>)
    ensures
        is_newest_first(keys, newest_first(keys)),
    decreases keys.len(),
{
    if keys.len() == 0 {
        assert(is_newest_first(keys, Seq::<int>::empty()));
    } else {
        let known = keys.take(keys.len() - 1);
        lemma_newest_first_exists(known);
        let before = newest_first(known);
        lemma_first_earlier(keys, before, 0);
        lemma_insert_last(keys, before, first_earlier(keys, before, 0));
    }
}

/// Every list of keys that is not empty has a most recent position.
pub proof fn lemma_most_recent_exists(keys: Seq<i128>)
    requires
        keys.len() > 0,
    ensures
        is_most_recent(keys, most_recent(keys)),
{
    lemma_newest_first_exists(keys);
    lemma_newest_first_starts_with_most_recent(keys, newest_first(keys));
}

/// The positions that a list of machine indices stands for.
pub open spec fn positions(order: Seq<usize>) -> Seq<int> {
    order.map_values(|p: usize| p as int)
}

/// The newest-first order of the positions of `keys`.
pub fn newest_first_order(keys: &Vec<i128>) -> (order: Vec<usize>)
    ensures
        is_newest_first(keys@, positions(order@)),
        positions(order@) == newest_first(keys@),
{
    let mut order: Vec<usize> = Vec::new();
    let mut n: usize = 0;
    while n < keys.len()
        invariant
            0 <= n <= keys.len(),
            is_newest_first(keys@.take(n as int), positions(order@)),
        decreases keys.len() - n,
    {
        // The new position goes behind every position whose key is not earlier.
        let mut p: usize = 0;
        let mut found = false;
        while p < order.len() && !found
            invariant
                0 <= p <= order.len(),
                n < keys.len(),
                is_newest_first(keys@.take(n as int), positions(order@)),
                forall|i: int|
                    0 <= i < p ==> keys@[#[trigger] positions(order@)[i]] >= keys@[n as int],
                found ==> p < order.len() && keys@[positions(order@)[p as int]] < keys@[n as int],
            decreases order.len() - p + if found { 0int } else { 1int },
        {
            let q = order[p];
            assert(positions(order@)[p as int] == q);
            assert(0 <= positions(order@)[p as int] < keys@.take(n as int).len());
            if keys[q] >= keys[n] {
                p = p + 1;
            } else {
                found = true;
            }
        }
        proof {
            let grown = keys@.take(n + 1);
            assert(grown.take(grown.len() - 1) =~= keys@.take(n as int));
            let before = positions(order@);
            if p < order.len() {
                assert(0 <= before[p as int] < keys@.take(n as int).len());
            }
            assert forall|i: int| 0 <= i < p implies grown[#[trigger] before[i]] >= grown[grown.len()
                - 1] by {
                assert(0 <= before[i] < keys@.take(n as int).len());
            }
            lemma_insert_last(grown, before, p as int);
            assert(positions(order@.insert(p as int, n)) =~= before.insert(p as int, n as int));
        }
        order.insert(p, n);
        n = n + 1;
    }
    proof {
        assert(keys@.take(n as int) == keys@);
        lemma_newest_first_is_unique(keys@, positions(order@));
    }
    order
}

} // verus!
