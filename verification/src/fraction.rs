//! Fixed-point fractions: a value of `[0, 1]` is held as a count of millionths.

use vstd::prelude::*;

verus! {

/// The fraction one, in millionths.
pub const ONE: u64 = 1_000_000;

/// The fraction one half, in millionths.
pub const HALF: u64 = 500_000;

/// Whether `x` stands for a value of the closed unit interval.
pub open spec fn is_fraction(x: u64) -> bool {
    x <= ONE
}

/// The sum of a sequence of millionths.
pub open spec fn sum_of(values: Seq<u64>) -> nat
    decreases values.len(),
{
    if values.len() == 0 {
        0
    } else {
        sum_of(values.drop_last()) + values.last() as nat
    }
}

/// The mean of `values`, rounded down; the mean of no values is zero.
pub open spec fn mean_of(values: Seq<u64>) -> nat {
    if values.len() == 0 {
        0
    } else {
        sum_of(values) / values.len()
    }
}

/// A sum of fractions is bounded by their number.
pub proof fn lemma_sum_of_fractions(values: Seq<u64>)
    requires
        forall|i: int| 0 <= i < values.len() ==> is_fraction(#[trigger] values[i]),
    ensures
        sum_of(values) <= values.len() * ONE,
    decreases values.len(),
{
    if values.len() > 0 {
        let front = values.drop_last();
        assert forall|i: int| 0 <= i < front.len() implies is_fraction(#[trigger] front[i]) by {
            assert(front[i] == values[i]);
        }
        lemma_sum_of_fractions(front);
        assert(is_fraction(values[values.len() - 1]));
        assert(sum_of(values) <= (values.len() - 1) * ONE + ONE);
        assert((values.len() - 1) * ONE + ONE == values.len() * ONE) by (nonlinear_arith);
    }
}

/// Sums are monotone: pointwise smaller values give a smaller sum.
pub proof fn lemma_sum_of_monotone(low: Seq<u64>, high: Seq<u64>)
    requires
        low.len() == high.len(),
        forall|i: int| 0 <= i < low.len() ==> low[i] <= high[i],
    ensures
        sum_of(low) <= sum_of(high),
    decreases low.len(),
{
    if low.len() > 0 {
        let l = low.drop_last();
        let h = high.drop_last();
        assert forall|i: int| 0 <= i < l.len() implies l[i] <= h[i] by {
            assert(l[i] == low[i]);
            assert(h[i] == high[i]);
        }
        lemma_sum_of_monotone(l, h);
        assert(low[low.len() - 1] <= high[high.len() - 1]);
    }
}

/// Means are monotone, and the mean of fractions is a fraction.
pub proof fn lemma_mean_of_monotone(low: Seq<u64>, high: Seq<u64>)
    requires
        low.len() == high.len(),
        forall|i: int| 0 <= i < low.len() ==> low[i] <= high[i],
        forall|i: int| 0 <= i < high.len() ==> is_fraction(#[trigger] high[i]),
    ensures
        mean_of(low) <= mean_of(high) <= ONE,
{
    if low.len() > 0 {
        lemma_sum_of_monotone(low, high);
        lemma_sum_of_fractions(high);
        let n = low.len() as int;
        let a = sum_of(low) as int;
        let b = sum_of(high) as int;
        assert(a / n <= b / n) by (nonlinear_arith)
            requires
                a <= b,
                n > 0,
                a >= 0,
        ;
        assert(b / n <= ONE) by (nonlinear_arith)
            requires
                b <= n * ONE,
                n > 0,
                b >= 0,
        ;
    }
}

/// The mean of `values`, rounded down: the average of the millionths.
pub fn mean(values: &Vec<u64>) -> (result: u64)
    requires
        forall|i: int| 0 <= i < values@.len() ==> is_fraction(#[trigger] values@[i]),
    ensures
        result as nat == mean_of(values@),
        is_fraction(result),
{
    let n: usize = values.len();
    if n == 0 {
        return 0;
    }
    let mut total: u128 = 0;
    let mut i: usize = 0;
    while i < n
        invariant
            n == values@.len(),
            0 <= i <= n,
            total as nat == sum_of(values@.subrange(0, i as int)),
            total <= i * ONE,
            forall|k: int| 0 <= k < values@.len() ==> is_fraction(#[trigger] values@[k]),
        decreases n - i,
    {
        proof {
            let next = values@.subrange(0, i + 1);
            assert(next.drop_last() =~= values@.subrange(0, i as int));
            assert(next.last() == values@[i as int]);
            assert(is_fraction(values@[i as int]));
            assert(i * ONE + ONE == (i + 1) * ONE) by (nonlinear_arith);
            assert(i * ONE <= usize::MAX * ONE) by (nonlinear_arith)
                requires
                    i <= usize::MAX,
            ;
        }
        total = total + values[i] as u128;
        i = i + 1;
    }
    proof {
        assert(values@.subrange(0, n as int) =~= values@);
        lemma_sum_of_fractions(values@);
        let s = sum_of(values@) as int;
        let m = n as int;
        assert(s / m <= ONE) by (nonlinear_arith)
            requires
                s <= m * ONE,
                m > 0,
                s >= 0,
        ;
    }
    let q: u128 = total / (n as u128);
    q as u64
}

} // verus!
