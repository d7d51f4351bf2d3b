//! Stable ordering of list rows by rank.

use vstd::prelude::*;

verus! {

/// What a list is ordered by.
pub trait Ranked: Sized {
    /// Whether this rank may stand before the other one, or beside it.
    spec fn not_after(&self, other: &Self) -> bool;

    /// Any two ranks compare.
    proof fn total(a: &Self, b: &Self)
        ensures
            a.not_after(b) || b.not_after(a),
    ;

    /// The comparison is transitive.
    proof fn transitive(a: &Self, b: &Self, c: &Self)
        requires
            a.not_after(b),
            b.not_after(c),
        ensures
            a.not_after(c),
    ;

    /// Tells whether this rank may stand before the other one, or beside it.
    fn may_precede(&self, other: &Self) -> (r: bool)
        ensures
            r == self.not_after(other),
    ;
}

/// Whether `order` lists the places of `ranks` so that the ranks are in order and places of
/// equal rank stay in their sequence.
pub open spec fn stably_ordered<T: Ranked>(ranks: Seq<T>, order: Seq<usize>) -> bool {
    forall|i: int, j: int|
        0 <= i < j < order.len() ==> {
            &&& ranks[#[trigger] order[i] as int].not_after(&ranks[#[trigger] order[j] as int])
            &&& (ranks[order[j] as int].not_after(&ranks[order[i] as int]) ==> order[i] < order[j])
        }
}

/// Whether `order` lists each place below `n` once.
pub open spec fn lists_each_once(order: Seq<usize>, n: nat) -> bool {
    &&& order.len() == n
    &&& order.no_duplicates()
    &&& forall|i: int| 0 <= i < order.len() ==> #[trigger] order[i] < n
    &&& forall|k: usize| k < n ==> #[trigger] order.contains(k)
}

proof fn lemma_insert_contains(s: Seq<usize>, p: int, x: usize)
    requires
        0 <= p <= s.len(),
    ensures
        forall|k: usize| #[trigger] s.insert(p, x).contains(k) <==> s.contains(k) || k == x,
{
    let t = s.insert(p, x);
    assert forall|k: usize| #[trigger] t.contains(k) <==> s.contains(k) || k == x by {
        if s.contains(k) {
            let i = s.index_of(k);
            if i < p {
                assert(t[i] == k);
            } else {
                assert(t[i + 1] == k);
            }
        }
        if k == x {
            assert(t[p] == k);
        }
        if t.contains(k) {
            let i = t.index_of(k);
            if i < p {
                assert(s[i] == k);
            } else if i > p {
                assert(s[i - 1] == k);
            }
        }
    }
}

/// Orders the places of `ranks` by rank, keeping places of equal rank in their sequence.
pub fn stable_order<T: Ranked>(ranks: &Vec<T>) -> (order: Vec<usize>)
    ensures
        lists_each_once(order@, ranks@.len()),
        stably_ordered(ranks@, order@),
{
    let mut order: Vec<usize> = Vec::new();
    let mut n: usize = 0;
    while n < ranks.len()
        invariant
            n <= ranks@.len(),
            lists_each_once(order@, n as nat),
            stably_ordered(ranks@, order@),
        decreases ranks@.len() - n,
    {
        let mut p: usize = order.len();
        while p > 0 && !ranks[order[p - 1]].may_precede(&ranks[n])
            invariant
                n < ranks@.len(),
                p <= order@.len(),
                lists_each_once(order@, n as nat),
                forall|i: int|
                    p <= i < order@.len() ==> !ranks@[#[trigger] order@[i] as int].not_after(
                        &ranks@[n as int],
                    ),
            decreases p,
        {
            p -= 1;
        }
        let ghost before = order@;
        proof {
            lemma_insert_ordered(ranks@, before, p as int, n);
            lemma_insert_contains(before, p as int, n);
        }
        order.insert(p, n);
        assert(order@ == before.insert(p as int, n));
        assert forall|k: usize| k < n + 1 implies #[trigger] order@.contains(k) by {
            if k < n {
                assert(before.contains(k));
            }
        }
        n += 1;
    }
    order
}

proof fn lemma_insert_ordered<T: Ranked>(ranks: Seq<T>, order: Seq<usize>, p: int, n: usize)
    requires
        n < ranks.len(),
        0 <= p <= order.len(),
        lists_each_once(order, n as nat),
        stably_ordered(ranks, order),
        p > 0 ==> ranks[order[p - 1] as int].not_after(&ranks[n as int]),
        forall|i: int|
            p <= i < order.len() ==> !ranks[#[trigger] order[i] as int].not_after(&ranks[n as int]),
    ensures
        stably_ordered(ranks, order.insert(p, n)),
        order.insert(p, n).no_duplicates(),
{
    let t = order.insert(p, n);
    assert forall|i: int, j: int| 0 <= i < j < t.len() implies {
        &&& ranks[#[trigger] t[i] as int].not_after(&ranks[#[trigger] t[j] as int])
        &&& (ranks[t[j] as int].not_after(&ranks[t[i] as int]) ==> t[i] < t[j])
    } by {
        let i0 = if i < p { i } else { i - 1 };
        let j0 = if j < p { j } else { j - 1 };
        if j == p {
            assert(t[i] == order[i]);
            if i < p - 1 {
                assert(ranks[order[i] as int].not_after(&ranks[order[p - 1] as int]));
                T::transitive(
                    &ranks[order[i] as int],
                    &ranks[order[p - 1] as int],
                    &ranks[n as int],
                );
            }
        } else if i == p {
            assert(t[j] == order[j0]);
            T::total(&ranks[n as int], &ranks[order[j0] as int]);
        } else {
            assert(t[i] == order[i0] && t[j] == order[j0]);
            assert(0 <= i0 < j0 < order.len());
        }
    }
}

/// There is only one such order.
pub proof fn lemma_stable_order_unique<T: Ranked>(ranks: Seq<T>, a: Seq<usize>, b: Seq<usize>)
    requires
        lists_each_once(a, ranks.len()),
        lists_each_once(b, ranks.len()),
        stably_ordered(ranks, a),
        stably_ordered(ranks, b),
    ensures
        a == b,
{
    lemma_stable_order_agrees(ranks, a, b, a.len() as int);
    assert(a.take(a.len() as int) =~= a);
    assert(b.take(a.len() as int) =~= b);
}

proof fn lemma_stable_order_agrees<T: Ranked>(
    ranks: Seq<T>,
    a: Seq<usize>,
    b: Seq<usize>,
    n: int,
)
    requires
        lists_each_once(a, ranks.len()),
        lists_each_once(b, ranks.len()),
        stably_ordered(ranks, a),
        stably_ordered(ranks, b),
        0 <= n <= a.len(),
    ensures
        a.take(n) == b.take(n),
    decreases n,
{
    if n > 0 {
        let m = n - 1;
        lemma_stable_order_agrees(ranks, a, b, m);
        assert(forall|k: int| 0 <= k < m ==> a[k] == b[k]) by {
            assert forall|k: int| 0 <= k < m implies a[k] == b[k] by {
                assert(a.take(m)[k] == b.take(m)[k]);
            }
        }
        if a[m] != b[m] {
            assert(a.contains(b[m]));
            assert(b.contains(a[m]));
            let i = a.index_of(b[m]);
            let j = b.index_of(a[m]);
            assert(a[i] == b[m] && b[j] == a[m]);
            assert(i > m);
            assert(j > m);
            assert(ranks[a[m] as int].not_after(&ranks[a[i] as int]));
            assert(ranks[b[m] as int].not_after(&ranks[b[j] as int]));
        }
        assert(a.take(n) =~= a.take(m).push(a[m]));
        assert(b.take(n) =~= b.take(m).push(b[m]));
    } else {
        assert(a.take(n) =~= b.take(n));
    }
}

} // verus!
