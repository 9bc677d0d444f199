//! Confidence sequences over a bounded mean.
//!
//! A [`BettingCS`] follows the mean of observations in `[0, 1]`. Two wealth
//! processes bet against each candidate mean of an equispaced grid; the
//! multiplication of wealth is numerical work done beside this module, which
//! receives its verdict as one flag per candidate: whether both wealth processes
//! of that candidate are still below `1/alpha`. From the flags this module takes
//! the interval, as the outer envelope of the surviving candidates, widened so
//! that it always holds the empirical mean. The running moments are kept here in
//! exact integer arithmetic.

use vstd::prelude::*;
use crate::fraction::{ONE, HALF};

verus! {

/// The miscoverage level used where none is given: five percent.
pub const DEFAULT_ALPHA: u64 = 50_000;

/// The grid resolution used where none is given.
pub const DEFAULT_RESOLUTION: usize = 101;

/// Why a confidence sequence refused a request.
#[derive(Debug, Clone, Copy, PartialEq, Eq, Structural)]
pub enum ConfidenceError {
    /// The miscoverage level is not strictly between zero and one.
    InvalidAlpha,
    /// The grid has fewer than three points, so none lies inside `(0, 1)`.
    InvalidResolution,
    /// The observation is larger than one.
    ObservationOutOfRange,
    /// The number of flags differs from the number of candidates.
    GridMismatch,
    /// The sample counter cannot grow any further.
    CountExhausted,
    /// The number of scores differs from the number of evaluators.
    EvaluatorMismatch,
}

/// The empirical mean of `count` observations that add up to `total`; before
/// the first observation it is one half.
pub open spec fn mean_after(total: int, count: int) -> int {
    if count <= 0 {
        HALF as int
    } else {
        total / count
    }
}

/// The shrinkage mean `(1/2 + total) / (count + 1)`.
pub open spec fn shrunk_mean(total: int, count: int) -> int {
    (HALF + total) / (count + 1)
}

/// The shrinkage variance `(1/4 + deviation) / (count + 1)`, where `deviation`
/// adds up squared distances and so is counted in millionths of millionths.
pub open spec fn shrunk_variance(deviation: int, count: int) -> int {
    (ONE * ONE / 4 + deviation) / ((count + 1) * ONE)
}

/// The distance between two numbers.
pub open spec fn distance(a: int, b: int) -> int {
    if a >= b {
        a - b
    } else {
        b - a
    }
}

/// The position of the first surviving candidate at or after `from`, or the
/// number of candidates if none survives there.
pub open spec fn first_surviving(flags: Seq<bool>, from: int) -> int
    decreases flags.len() - from,
{
    if from < 0 || from >= flags.len() {
        flags.len() as int
    } else if flags[from] {
        from
    } else {
        first_surviving(flags, from + 1)
    }
}

/// The position of the last surviving candidate before `upto`, or `-1` if none
/// survives there.
pub open spec fn last_surviving(flags: Seq<bool>, upto: int) -> int
    decreases upto,
{
    if upto <= 0 || upto > flags.len() {
        -1
    } else if flags[upto - 1] {
        upto - 1
    } else {
        last_surviving(flags, upto - 1)
    }
}

/// The number of candidate means of a grid of `resolution` equispaced points on
/// `[0, 1]`: all but the two end points.
pub open spec fn candidates(resolution: int) -> int {
    resolution - 2
}

/// The lower end of the interval: the grid point just below the first surviving
/// candidate, and never above the empirical mean. Candidate `i` is the grid
/// point `(i + 1) / (resolution - 1)`.
pub open spec fn lower_end(flags: Seq<bool>, resolution: int, mean: int) -> int {
    let first = first_surviving(flags, 0);
    if first >= flags.len() {
        mean
    } else {
        let edge = first * ONE / (resolution - 1);
        if edge < mean {
            edge
        } else {
            mean
        }
    }
}

/// The upper end of the interval: the grid point just above the last surviving
/// candidate, and never below the empirical mean.
pub open spec fn upper_end(flags: Seq<bool>, resolution: int, mean: int) -> int {
    let last = last_surviving(flags, flags.len() as int);
    if last < 0 {
        mean
    } else {
        let edge = (last + 2) * ONE / (resolution - 1);
        if edge > mean {
            edge
        } else {
            mean
        }
    }
}

/// A confidence sequence over a mean in `[0, 1]`, in millionths.
#[derive(Debug)]
pub struct BettingCS {
    /// A name for diagnostics.
    pub name: String,
    /// The number of observations taken in.
    pub count: u64,
    /// The sum of the observations.
    pub total: u128,
    /// The sum of the squared distances between each observation and the
    /// shrinkage mean that followed it, in millionths of millionths.
    pub deviation: u128,
    /// The empirical mean.
    pub mean_est: u64,
    /// The shrinkage mean, which sizes the bets.
    pub mean_regularized: u64,
    /// The shrinkage variance, which sizes the bets.
    pub variance_regularized: u64,
    /// The lower end of the interval.
    pub cs_lower: u64,
    /// The upper end of the interval.
    pub cs_upper: u64,
    /// The miscoverage level.
    pub alpha: u64,
    /// The number of equispaced grid points on `[0, 1]`, end points counted.
    pub resolution: usize,
}

impl BettingCS {
    /// The invariant of a confidence sequence: the level and the grid are
    /// proper, the moments are those of `count` observations adding up to
    /// `total`, and the interval lies in `[0, 1]` around the empirical mean.
    pub open spec fn wf(&self) -> bool {
        &&& 0 < self.alpha < ONE
        &&& self.resolution >= 3
        &&& self.total <= self.count * ONE
        &&& self.deviation <= self.count * ONE * ONE
        &&& self.mean_est == mean_after(self.total as int, self.count as int)
        &&& self.mean_regularized == shrunk_mean(self.total as int, self.count as int)
        &&& self.variance_regularized == shrunk_variance(self.deviation as int, self.count as int)
        &&& self.cs_lower <= self.mean_est <= self.cs_upper <= ONE
    }

    /// Why the observation `x` with the verdict `flags` cannot be taken in, if
    /// it cannot.
    pub open spec fn refusal(&self, x: u64, flags: Seq<bool>) -> Option<ConfidenceError> {
        if x > ONE {
            Some(ConfidenceError::ObservationOutOfRange)
        } else if flags.len() != candidates(self.resolution as int) {
            Some(ConfidenceError::GridMismatch)
        } else if self.count == u64::MAX {
            Some(ConfidenceError::CountExhausted)
        } else {
            None
        }
    }

    /// The state after taking in the observation `x` with the verdict `flags`.
    pub open spec fn after(&self, x: u64, flags: Seq<bool>) -> BettingCS {
        let count = self.count + 1;
        let total = self.total + x;
        let mean = mean_after(total, count);
        let shrunk = shrunk_mean(total, count);
        let gap = distance(x as int, shrunk);
        let deviation = self.deviation + gap * gap;
        BettingCS {
            name: self.name,
            count: count as u64,
            total: total as u128,
            deviation: deviation as u128,
            mean_est: mean as u64,
            mean_regularized: shrunk as u64,
            variance_regularized: shrunk_variance(deviation, count) as u64,
            cs_lower: lower_end(flags, self.resolution as int, mean) as u64,
            cs_upper: upper_end(flags, self.resolution as int, mean) as u64,
            alpha: self.alpha,
            resolution: self.resolution,
        }
    }

    /// Whether the confidence sequence keeps its invariant.
    pub fn is_valid(&self) -> (valid: bool)
        ensures
            valid == self.wf(),
    {
        if self.alpha == 0 || self.alpha >= ONE || self.resolution < 3 {
            return false;
        }
        let count: u128 = self.count as u128;
        let one: u128 = ONE as u128;
        proof {
            assert(count * one <= u64::MAX * one) by (nonlinear_arith)
                requires
                    count <= u64::MAX,
                    one == 1_000_000,
            ;
            assert(count * one * one <= u64::MAX * one * one) by (nonlinear_arith)
                requires
                    count <= u64::MAX,
                    one == 1_000_000,
            ;
            assert((count + 1) * one <= (u64::MAX + 1) * one) by (nonlinear_arith)
                requires
                    count <= u64::MAX,
                    one == 1_000_000,
            ;
        }
        if self.total > count * one || self.deviation > count * one * one {
            return false;
        }
        let mean: u128 = if self.count == 0 {
            HALF as u128
        } else {
            self.total / count
        };
        let shrunk: u128 = (HALF as u128 + self.total) / (count + 1);
        let variance: u128 = (one * one / 4 + self.deviation) / ((count + 1) * one);
        self.mean_est as u128 == mean && self.mean_regularized as u128 == shrunk
            && self.variance_regularized as u128 == variance && self.cs_lower <= self.mean_est
            && self.mean_est <= self.cs_upper && self.cs_upper <= ONE
    }

    /// A fresh confidence sequence: no observation, the empirical mean at one
    /// half, and the trivial interval `[0, 1]`.
    pub fn new(name: String, alpha: u64, resolution: usize) -> (result: Result<BettingCS, ConfidenceError>)
        ensures
            (alpha == 0 || alpha >= ONE) ==> result == Err::<BettingCS, ConfidenceError>(
                ConfidenceError::InvalidAlpha,
            ),
            (0 < alpha < ONE && resolution < 3) ==> result == Err::<BettingCS, ConfidenceError>(
                ConfidenceError::InvalidResolution,
            ),
            (0 < alpha < ONE && resolution >= 3) ==> result.is_ok(),
            result.is_ok() ==> {
                let cs = result.unwrap();
                &&& cs.wf()
                &&& cs.name == name
                &&& cs.count == 0
                &&& cs.total == 0
                &&& cs.deviation == 0
                &&& cs.mean_est == HALF
                &&& cs.mean_regularized == HALF
                &&& cs.variance_regularized == ONE / 4
                &&& cs.cs_lower == 0
                &&& cs.cs_upper == ONE
                &&& cs.alpha == alpha
                &&& cs.resolution == resolution
            },
    {
        if alpha == 0 || alpha >= ONE {
            return Err(ConfidenceError::InvalidAlpha);
        }
        if resolution < 3 {
            return Err(ConfidenceError::InvalidResolution);
        }
        assert(shrunk_variance(0, 0) == ONE / 4 && shrunk_mean(0, 0) == HALF) by (nonlinear_arith)
            requires
                ONE == 1_000_000,
                HALF == 500_000,
        ;
        Ok(
            BettingCS {
                name,
                count: 0,
                total: 0,
                deviation: 0,
                mean_est: HALF,
                mean_regularized: HALF,
                variance_regularized: ONE / 4,
                cs_lower: 0,
                cs_upper: ONE,
                alpha,
                resolution,
            },
        )
    }

    /// The number of candidate means, which is the number of flags that
    /// [`BettingCS::update`] expects.
    pub fn grid_len(&self) -> (n: usize)
        requires
            self.wf(),
        ensures
            n == candidates(self.resolution as int),
    {
        self.resolution - 2
    }

    /// Whether [`BettingCS::update`] would refuse the observation, and why.
    pub fn check(&self, x: u64, surviving: &Vec<bool>) -> (verdict: Option<ConfidenceError>)
        requires
            self.wf(),
        ensures
            verdict == self.refusal(x, surviving@),
    {
        if x > ONE {
            Some(ConfidenceError::ObservationOutOfRange)
        } else if surviving.len() != self.resolution - 2 {
            Some(ConfidenceError::GridMismatch)
        } else if self.count == u64::MAX {
            Some(ConfidenceError::CountExhausted)
        } else {
            None
        }
    }

    /// Takes in one observation together with the verdict of the wealth
    /// processes on it: `surviving[i]` says that candidate `i` is not refuted.
    /// A refused request leaves the sequence as it was.
    pub fn update(&mut self, x: u64, surviving: &Vec<bool>) -> (result: Result<(), ConfidenceError>)
        requires
            old(self).wf(),
        ensures
            final(self).wf(),
            result == match old(self).refusal(x, surviving@) {
                Some(e) => Err::<(), ConfidenceError>(e),
                None => Ok::<(), ConfidenceError>(()),
            },
            result.is_err() ==> *final(self) == *old(self),
            result.is_ok() ==> *final(self) == old(self).after(x, surviving@),
    {
        if x > ONE {
            return Err(ConfidenceError::ObservationOutOfRange);
        }
        if surviving.len() != self.resolution - 2 {
            return Err(ConfidenceError::GridMismatch);
        }
        if self.count == u64::MAX {
            return Err(ConfidenceError::CountExhausted);
        }
        let ghost before = *self;
        let count: u64 = self.count + 1;
        proof {
            lemma_moment_bounds(self.total as int, self.deviation as int, self.count as int, x as int);
        }
        let total: u128 = self.total + x as u128;
        let mean: u64 = (total / (count as u128)) as u64;
        let shrunk: u64 = ((HALF as u128 + total) / (count as u128 + 1)) as u64;
        let gap: u64 = if x >= shrunk {
            x - shrunk
        } else {
            shrunk - x
        };
        proof {
            assert(gap * gap <= ONE * ONE) by (nonlinear_arith)
                requires
                    0 <= gap <= ONE,
            ;
        }
        let deviation: u128 = self.deviation + (gap as u128) * (gap as u128);
        proof {
            assert((count + 1) * ONE <= (u64::MAX + 1) * ONE) by (nonlinear_arith)
                requires
                    count <= u64::MAX,
            ;
            assert(0 <= shrunk_variance(deviation as int, count as int) <= ONE);
        }
        let scale: u128 = (count as u128 + 1) * (ONE as u128);
        let variance: u64 = (((ONE as u128) * (ONE as u128) / 4 + deviation) / scale) as u64;
        let (lower, upper) = interval_of(surviving, self.resolution, mean);
        self.count = count;
        self.total = total;
        self.deviation = deviation;
        self.mean_est = mean;
        self.mean_regularized = shrunk;
        self.variance_regularized = variance;
        self.cs_lower = lower;
        self.cs_upper = upper;
        assert(*self == before.after(x, surviving@));
        Ok(())
    }
}

impl Clone for BettingCS {
    fn clone(&self) -> (copy: Self)
        ensures
            copy == *self,
    {
        BettingCS {
            name: self.name.clone(),
            count: self.count,
            total: self.total,
            deviation: self.deviation,
            mean_est: self.mean_est,
            mean_regularized: self.mean_regularized,
            variance_regularized: self.variance_regularized,
            cs_lower: self.cs_lower,
            cs_upper: self.cs_upper,
            alpha: self.alpha,
            resolution: self.resolution,
        }
    }
}

/// The moments stay within their ranges when one more observation arrives.
pub proof fn lemma_moment_bounds(total: int, deviation: int, count: int, x: int)
    requires
        0 <= count,
        0 <= total <= count * ONE,
        0 <= deviation <= count * ONE * ONE,
        0 <= x <= ONE,
    ensures
        total + x <= (count + 1) * ONE,
        0 <= mean_after(total + x, count + 1) <= ONE,
        0 <= shrunk_mean(total + x, count + 1) <= ONE,
        deviation + ONE * ONE <= (count + 1) * ONE * ONE,
        forall|d: int|
            0 <= d <= deviation + ONE * ONE ==> 0 <= #[trigger] shrunk_variance(d, count + 1) <= ONE,
{
    let n = count + 1;
    let t = total + x;
    assert(t <= n * ONE) by (nonlinear_arith)
        requires
            t <= count * ONE + ONE,
            n == count + 1,
    ;
    assert(0 <= t / n <= ONE) by (nonlinear_arith)
        requires
            0 <= t <= n * ONE,
            n > 0,
    ;
    assert(0 <= (HALF + t) / (n + 1) <= ONE) by (nonlinear_arith)
        requires
            0 <= t <= n * ONE,
            n > 0,
    ;
    assert(deviation + ONE * ONE <= n * ONE * ONE) by (nonlinear_arith)
        requires
            deviation <= count * ONE * ONE,
            n == count + 1,
    ;
    assert forall|d: int| 0 <= d <= deviation + ONE * ONE implies 0 <= #[trigger] shrunk_variance(
        d,
        n,
    ) <= ONE by {
        let top = ONE * ONE / 4 + d;
        let scale = (n + 1) * ONE;
        assert(0 <= top <= scale * ONE) by (nonlinear_arith)
            requires
                0 <= d <= n * ONE * ONE,
                top == ONE * ONE / 4 + d,
                scale == (n + 1) * ONE,
                n > 0,
        ;
        assert(0 <= top / scale <= ONE) by (nonlinear_arith)
            requires
                0 <= top <= scale * ONE,
                scale > 0,
        ;
    }
}

/// The interval that the verdict `surviving` gives around `mean`.
pub fn interval_of(surviving: &Vec<bool>, resolution: usize, mean: u64) -> (ends: (u64, u64))
    requires
        resolution >= 3,
        surviving@.len() == candidates(resolution as int),
        mean <= ONE,
    ensures
        ends.0 == lower_end(surviving@, resolution as int, mean as int),
        ends.1 == upper_end(surviving@, resolution as int, mean as int),
        ends.0 <= mean <= ends.1 <= ONE,
{
    let n: usize = surviving.len();
    let mut first: usize = 0;
    while first < n && !surviving[first]
        invariant
            n == surviving@.len(),
            0 <= first <= n,
            first_surviving(surviving@, 0) == first_surviving(surviving@, first as int),
        decreases n - first,
    {
        first = first + 1;
    }
    let mut last: usize = n;
    while last > 0 && !surviving[last - 1]
        invariant
            n == surviving@.len(),
            0 <= last <= n,
            last_surviving(surviving@, n as int) == last_surviving(surviving@, last as int),
        decreases last,
    {
        last = last - 1;
    }
    if first >= n {
        proof {
            lemma_none_surviving(surviving@, n as int);
        }
        return (mean, mean);
    }
    assert(last > 0) by {
        lemma_some_surviving(surviving@, first as int, n as int);
    }
    let span: u128 = (resolution - 1) as u128;
    proof {
        let f = first as int;
        let l = last as int - 1;
        let s = span as int;
        assert(0 <= f * ONE / s <= ONE) by (nonlinear_arith)
            requires
                0 <= f < s,
        ;
        assert(0 <= (l + 2) * ONE / s <= ONE) by (nonlinear_arith)
            requires
                0 <= l,
                l + 2 <= s,
        ;
        assert((l + 2) * ONE <= s * ONE) by (nonlinear_arith)
            requires
                l + 2 <= s,
        ;
        assert(f * ONE <= s * ONE) by (nonlinear_arith)
            requires
                0 <= f < s,
        ;
        assert(s * ONE <= usize::MAX * ONE) by (nonlinear_arith)
            requires
                s <= usize::MAX,
        ;
    }
    let low_edge: u64 = ((first as u128) * (ONE as u128) / span) as u64;
    let high_edge: u64 = ((last as u128 + 1) * (ONE as u128) / span) as u64;
    let lower: u64 = if low_edge < mean {
        low_edge
    } else {
        mean
    };
    let upper: u64 = if high_edge > mean {
        high_edge
    } else {
        mean
    };
    (lower, upper)
}

/// Where no candidate survives before `upto`, the backward search finds none.
proof fn lemma_none_surviving(flags: Seq<bool>, upto: int)
    requires
        0 <= upto <= flags.len(),
        first_surviving(flags, 0) >= flags.len(),
    ensures
        last_surviving(flags, upto) == -1,
    decreases upto,
{
    if upto > 0 {
        lemma_first_is_least(flags, 0, upto - 1);
        lemma_none_surviving(flags, upto - 1);
    }
}

/// No candidate between `from` and the first surviving one survives.
proof fn lemma_first_is_least(flags: Seq<bool>, from: int, at: int)
    requires
        0 <= from <= at < flags.len(),
        at < first_surviving(flags, from),
    ensures
        !flags[at],
    decreases at - from,
{
    if from < at {
        if flags[from] {
        } else {
            lemma_first_is_least(flags, from + 1, at);
        }
    }
}

/// Where a candidate survives, the backward search from `upto` finds one.
proof fn lemma_some_surviving(flags: Seq<bool>, at: int, upto: int)
    requires
        0 <= at < upto <= flags.len(),
        flags[at],
    ensures
        last_surviving(flags, upto) >= at,
    decreases upto,
{
    if !flags[upto - 1] {
        lemma_some_surviving(flags, at, upto - 1);
    }
}

} // verus!
