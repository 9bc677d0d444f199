//! Scoring: from the confidence sequences of a variant's evaluators to one
//! interval for the variant.

use vstd::prelude::*;
use crate::confidence::BettingCS;
use crate::fraction::{is_fraction, lemma_mean_of_monotone, mean, mean_of, HALF, ONE};

verus! {

/// The score of a variant with its confidence interval, in millionths.
#[derive(Debug, Clone, Copy, PartialEq, Eq, Structural)]
pub struct ScoreInterval {
    /// The number of observations that every evaluator has taken in.
    pub count: u64,
    /// The score.
    pub mean_est: u64,
    /// The lower end of the interval.
    pub cs_lower: u64,
    /// The upper end of the interval.
    pub cs_upper: u64,
}

impl ScoreInterval {
    /// The interval lies in `[0, 1]` around the score.
    pub open spec fn wf(&self) -> bool {
        self.cs_lower <= self.mean_est <= self.cs_upper <= ONE
    }
}

/// How the evaluators' confidence sequences are combined into a score.
#[derive(Debug, Clone, Copy, PartialEq, Eq, Structural)]
pub enum ScoringFunctionType {
    /// The plain average over the evaluators, of the means and of both ends.
    /// The average of intervals is a heuristic aggregate: it does not keep the
    /// coverage guarantee that each evaluator's interval has.
    AverageEvaluatorScore,
}

/// The lower ends of `cs`, in order.
pub open spec fn lowers(cs: Seq<BettingCS>) -> Seq<u64> {
    Seq::new(cs.len(), |k: int| cs[k].cs_lower)
}

/// The empirical means of `cs`, in order.
pub open spec fn means(cs: Seq<BettingCS>) -> Seq<u64> {
    Seq::new(cs.len(), |k: int| cs[k].mean_est)
}

/// The upper ends of `cs`, in order.
pub open spec fn uppers(cs: Seq<BettingCS>) -> Seq<u64> {
    Seq::new(cs.len(), |k: int| cs[k].cs_upper)
}

/// The smallest sample count among `cs`; zero where there is none.
pub open spec fn least_count(cs: Seq<BettingCS>) -> u64
    decreases cs.len(),
{
    if cs.len() == 0 {
        0
    } else if cs.len() == 1 {
        cs[0].count
    } else {
        let rest = least_count(cs.drop_last());
        if cs.last().count < rest {
            cs.last().count
        } else {
            rest
        }
    }
}

/// The average score over the evaluators `cs`. Without evaluators nothing is
/// known: the score is one half and the interval is `[0, 1]`.
pub open spec fn average_score(cs: Seq<BettingCS>) -> ScoreInterval {
    if cs.len() == 0 {
        ScoreInterval { count: 0, mean_est: HALF, cs_lower: 0, cs_upper: ONE }
    } else {
        ScoreInterval {
            count: least_count(cs),
            mean_est: mean_of(means(cs)) as u64,
            cs_lower: mean_of(lowers(cs)) as u64,
            cs_upper: mean_of(uppers(cs)) as u64,
        }
    }
}

/// Whether every confidence sequence of `cs` keeps its invariant.
pub open spec fn all_wf(cs: Seq<BettingCS>) -> bool {
    forall|k: int| 0 <= k < cs.len() ==> (#[trigger] cs[k]).wf()
}

/// The average of valid intervals is a valid interval.
pub proof fn lemma_average_score_wf(cs: Seq<BettingCS>)
    requires
        all_wf(cs),
    ensures
        average_score(cs).wf(),
        mean_of(lowers(cs)) <= mean_of(means(cs)) <= mean_of(uppers(cs)) <= ONE,
{
    assert forall|k: int| 0 <= k < cs.len() implies lowers(cs)[k] <= means(cs)[k] && means(cs)[k]
        <= uppers(cs)[k] && is_fraction(#[trigger] uppers(cs)[k]) && is_fraction(means(cs)[k]) by {
        assert(cs[k].wf());
    }
    lemma_mean_of_monotone(lowers(cs), means(cs));
    lemma_mean_of_monotone(means(cs), uppers(cs));
}

impl ScoringFunctionType {
    /// The score that this scoring function gives to a variant.
    pub open spec fn spec_score(&self, cs: Seq<BettingCS>) -> ScoreInterval {
        average_score(cs)
    }

    /// Combines the evaluators' confidence sequences into the variant's score.
    pub fn score(&self, per_evaluator: &Vec<BettingCS>) -> (result: ScoreInterval)
        requires
            all_wf(per_evaluator@),
        ensures
            result == self.spec_score(per_evaluator@),
            result.wf(),
    {
        let n: usize = per_evaluator.len();
        if n == 0 {
            return ScoreInterval { count: 0, mean_est: HALF, cs_lower: 0, cs_upper: ONE };
        }
        let mut low: Vec<u64> = Vec::new();
        let mut mid: Vec<u64> = Vec::new();
        let mut high: Vec<u64> = Vec::new();
        let mut count: u64 = per_evaluator[0].count;
        let mut i: usize = 0;
        while i < n
            invariant
                n == per_evaluator@.len(),
                n > 0,
                0 <= i <= n,
                all_wf(per_evaluator@),
                low@ =~= lowers(per_evaluator@.subrange(0, i as int)),
                mid@ =~= means(per_evaluator@.subrange(0, i as int)),
                high@ =~= uppers(per_evaluator@.subrange(0, i as int)),
                i == 0 ==> count == per_evaluator@[0].count,
                i > 0 ==> count == least_count(per_evaluator@.subrange(0, i as int)),
            decreases n - i,
        {
            let cs = &per_evaluator[i];
            proof {
                let next = per_evaluator@.subrange(0, i + 1);
                assert(next.drop_last() =~= per_evaluator@.subrange(0, i as int));
                assert(next.last() == per_evaluator@[i as int]);
            }
            low.push(cs.cs_lower);
            mid.push(cs.mean_est);
            high.push(cs.cs_upper);
            if cs.count < count {
                count = cs.count;
            }
            i = i + 1;
        }
        proof {
            assert(per_evaluator@.subrange(0, n as int) =~= per_evaluator@);
            lemma_average_score_wf(per_evaluator@);
            assert forall|k: int| 0 <= k < n implies is_fraction(#[trigger] low@[k]) && is_fraction(
                mid@[k],
            ) && is_fraction(high@[k]) by {
                assert(per_evaluator@[k].wf());
            }
        }
        let lower: u64 = mean(&low);
        let est: u64 = mean(&mid);
        let upper: u64 = mean(&high);
        ScoreInterval { count, mean_est: est, cs_lower: lower, cs_upper: upper }
    }
}

} // verus!
