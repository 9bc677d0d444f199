//! Counting the positions of a range that satisfy a predicate.

use vstd::prelude::*;

verus! {

/// The number of positions `j` with `0 <= j < n` that satisfy `p`.
pub open spec fn count_where(n: int, p: spec_fn(int) -> bool) -> nat
    decreases n,
{
    if n <= 0 {
        0
    } else {
        count_where(n - 1, p) + if p(n - 1) {
            1nat
        } else {
            0nat
        }
    }
}

/// A count is at most the length of the range.
pub proof fn lemma_count_bound(n: int, p: spec_fn(int) -> bool)
    requires
        0 <= n,
    ensures
        count_where(n, p) <= n,
    decreases n,
{
    if n > 0 {
        lemma_count_bound(n - 1, p);
    }
}

/// A predicate that implies another is satisfied at most as often.
pub proof fn lemma_count_monotone(n: int, p: spec_fn(int) -> bool, q: spec_fn(int) -> bool)
    requires
        forall|j: int| 0 <= j < n && #[trigger] p(j) ==> q(j),
    ensures
        count_where(n, p) <= count_where(n, q),
    decreases n,
{
    if n > 0 {
        lemma_count_monotone(n - 1, p, q);
        assert(p(n - 1) ==> q(n - 1));
    }
}

/// Predicates that agree on the range are satisfied equally often.
pub proof fn lemma_count_equal(n: int, p: spec_fn(int) -> bool, q: spec_fn(int) -> bool)
    requires
        forall|j: int| 0 <= j < n ==> #[trigger] p(j) == q(j),
    ensures
        count_where(n, p) == count_where(n, q),
    decreases n,
{
    if n > 0 {
        lemma_count_equal(n - 1, p, q);
        assert(p(n - 1) == q(n - 1));
    }
}

/// Where `p` holds exactly if one of the disjoint `a` and `b` holds, the count
/// of `p` is the sum of their counts.
pub proof fn lemma_count_partition(
    n: int,
    p: spec_fn(int) -> bool,
    a: spec_fn(int) -> bool,
    b: spec_fn(int) -> bool,
)
    requires
        forall|j: int| 0 <= j < n ==> (#[trigger] p(j) <==> (a(j) || b(j))),
        forall|j: int| 0 <= j < n ==> !(#[trigger] a(j) && b(j)),
    ensures
        count_where(n, p) == count_where(n, a) + count_where(n, b),
    decreases n,
{
    if n > 0 {
        lemma_count_partition(n - 1, p, a, b);
        assert(p(n - 1) <==> (a(n - 1) || b(n - 1)));
        assert(!(a(n - 1) && b(n - 1)));
    }
}

/// Where `q` is `p` without the position `i`, which satisfies `p`, the count of
/// `q` is one less.
pub proof fn lemma_count_without(n: int, p: spec_fn(int) -> bool, q: spec_fn(int) -> bool, i: int)
    requires
        0 <= i < n,
        p(i),
        forall|j: int| 0 <= j < n ==> (#[trigger] q(j) <==> (p(j) && j != i)),
    ensures
        count_where(n, q) + 1 == count_where(n, p),
    decreases n,
{
    assert(q(n - 1) <==> (p(n - 1) && n - 1 != i));
    if i == n - 1 {
        lemma_count_equal(n - 1, p, q);
    } else {
        lemma_count_without(n - 1, p, q, i);
    }
}

/// A count of zero means that no position satisfies the predicate.
pub proof fn lemma_count_zero(n: int, p: spec_fn(int) -> bool)
    requires
        count_where(n, p) == 0,
    ensures
        forall|j: int| 0 <= j < n ==> !#[trigger] p(j),
    decreases n,
{
    if n > 0 {
        lemma_count_zero(n - 1, p);
    }
}

} // verus!
