//! The global stopping rule, evaluated between batches.
//!
//! The rule checks, in this order: evaluators that fail too often end the run;
//! variants that fail too often are marked failed, and too many of them end the
//! run; variants that cannot be among the best are ruled out; a top set of a
//! wanted size ends the run with its members marked; an exhausted dataset ends
//! the run. A status only ever moves away from active.

use vstd::prelude::*;
use crate::counting::{count_where, lemma_count_bound, lemma_count_equal, lemma_count_partition};
use crate::ranking::{
    above,
    active_at,
    candidate,
    chosen,
    count_active,
    count_chosen,
    find_top_set,
    is_separated,
    is_top_set,
    lemma_top_set_is_candidate,
    num_active,
    size,
    standings_wf,
    Standing,
};
use crate::names::texts;
use crate::scorer::lemma_average_score_wf;
use crate::tracker::{EvaluatorTracker, VariantStatus, VariantTracker};

verus! {

/// Why a run ended.
#[derive(Debug)]
pub enum GlobalStoppingReason {
    /// A set of `k` variants is separated from all the others.
    TopKFound { k: u32, top_variants: Vec<String> },
    /// No datapoint is left.
    DatasetExhausted,
    /// The named evaluators fail too often.
    EvaluatorsFailed { evaluator_names: Vec<String> },
    /// So many variants have failed that too few are left.
    TooManyVariantsFailed { num_failed: usize },
}

/// The parameters of the stopping rule, fractions in millionths.
#[derive(Debug, Clone, Copy, PartialEq, Eq, Structural)]
pub struct StoppingRule {
    /// The smallest wanted size of the top set.
    pub k_min: u32,
    /// The largest wanted size of the top set.
    pub k_max: u32,
    /// The gap required between a member and a variant outside the set.
    pub epsilon: u64,
    /// The failure rate above which a variant is marked failed.
    pub variant_failure_threshold: u64,
    /// The failure rate above which an evaluator ends the run.
    pub evaluator_failure_threshold: u64,
}

/// The items of `items` whose flag is set, in order.
pub open spec fn pick(items: Seq<Seq<char>>, flags: Seq<bool>) -> Seq<Seq<char>>
    decreases items.len(),
{
    if items.len() == 0 || flags.len() != items.len() {
        Seq::empty()
    } else {
        let front = pick(items.drop_last(), flags.drop_last());
        if flags.last() {
            front.push(items.last())
        } else {
            front
        }
    }
}

/// The names of the variants, in order.
pub open spec fn variant_names(v: Seq<VariantTracker>) -> Seq<Seq<char>> {
    Seq::new(v.len(), |i: int| v[i].name@)
}

/// The names of the evaluators, in order.
pub open spec fn evaluator_names(e: Seq<EvaluatorTracker>) -> Seq<Seq<char>> {
    Seq::new(e.len(), |i: int| e[i].name@)
}

/// For each evaluator, whether it is over the failure threshold.
pub open spec fn over_flags(e: Seq<EvaluatorTracker>, threshold: u64) -> Seq<bool> {
    Seq::new(e.len(), |i: int| e[i].over_threshold(threshold))
}

/// The names of the evaluators that are over the failure threshold, in order.
pub open spec fn failed_evaluators(e: Seq<EvaluatorTracker>, threshold: u64) -> Seq<Seq<char>> {
    pick(evaluator_names(e), over_flags(e, threshold))
}

/// What the rule reads of the variants.
pub open spec fn standings(v: Seq<VariantTracker>) -> Seq<Standing> {
    Seq::new(
        v.len(),
        |i: int|
            Standing {
                status: v[i].status,
                performance: v[i].performance,
                failure_lower: v[i].failures.cs_lower,
            },
    )
}

/// The standings after each active variant whose failure rate lies strictly
/// above `threshold` is marked failed.
pub open spec fn after_failures(s: Seq<Standing>, threshold: u64) -> Seq<Standing> {
    Seq::new(
        s.len(),
        |i: int|
            if s[i].status == VariantStatus::Active && s[i].failure_lower > threshold {
                Standing { status: VariantStatus::Failed, ..s[i] }
            } else {
                s[i]
            },
    )
}

/// The predicate "position `i` holds a variant with status `status`".
pub open spec fn status_at(s: Seq<Standing>, status: VariantStatus) -> spec_fn(int) -> bool {
    |i: int| 0 <= i < s.len() && s[i].status == status
}

/// The number of variants with status `status`.
pub open spec fn num_with_status(s: Seq<Standing>, status: VariantStatus) -> nat {
    count_where(s.len() as int, status_at(s, status))
}

/// The number of failed variants.
pub open spec fn num_failed(s: Seq<Standing>) -> nat {
    num_with_status(s, VariantStatus::Failed)
}

/// The predicate "`j` is another active variant that lies strictly above `i`".
pub open spec fn beaten_by(s: Seq<Standing>, i: int) -> spec_fn(int) -> bool {
    |j: int| j != i && active_at(s)(j) && above(s, j, i, 0)
}

/// The number of other active variants that lie strictly above variant `i`.
pub open spec fn losses(s: Seq<Standing>, i: int) -> nat {
    count_where(s.len() as int, beaten_by(s, i))
}

/// Whether the active variant `i` is ruled out: there are more than `k_max`
/// active variants, and at least that number less `k_max` of the others lie
/// strictly above it. With no more than `k_max` active variants each of them
/// is among the best `k_max`, and none is ruled out.
pub open spec fn ruled_out(s: Seq<Standing>, k_max: int, i: int) -> bool {
    &&& s[i].status == VariantStatus::Active
    &&& num_active(s) > k_max
    &&& losses(s, i) + k_max >= num_active(s)
}

/// The standings after every variant that is ruled out is marked so. All
/// variants are judged on the standings as they were before the marking.
pub open spec fn after_exclusions(s: Seq<Standing>, k_max: int) -> Seq<Standing> {
    Seq::new(
        s.len(),
        |i: int|
            if ruled_out(s, k_max, i) {
                Standing { status: VariantStatus::Exclude, ..s[i] }
            } else {
                s[i]
            },
    )
}

/// The standings after a top set is found: its members are marked as top
/// variants, and every other active variant is ruled out.
pub open spec fn after_selection(s: Seq<Standing>, sel: Seq<bool>) -> Seq<Standing> {
    Seq::new(
        s.len(),
        |i: int|
            if s[i].status == VariantStatus::Active {
                if sel[i] {
                    Standing { status: VariantStatus::Include, ..s[i] }
                } else {
                    Standing { status: VariantStatus::Exclude, ..s[i] }
                }
            } else {
                s[i]
            },
    )
}

/// Whether a top set exists with at least `k_min` and at most `k_max` members.
pub open spec fn has_top_set(s: Seq<Standing>, k_min: int, k_max: int, epsilon: u64) -> bool {
    exists|sel: Seq<bool>| #[trigger] is_top_set(s, sel, epsilon) && k_min <= size(sel) <= k_max
}

/// Whether the run stops because too many variants have failed: the failed
/// variants are more than all variants less `k_min`.
pub open spec fn too_many_failed(s: Seq<Standing>, k_min: int) -> bool {
    num_failed(s) + k_min > s.len()
}

/// Whether `after` differs from `before` in the statuses only, and a status
/// changed only where it was active before.
pub open spec fn only_statuses_moved(before: Seq<VariantTracker>, after: Seq<VariantTracker>) -> bool {
    &&& after.len() == before.len()
    &&& forall|i: int|
        0 <= i < before.len() ==> {
            &&& (#[trigger] after[i]).name == before[i].name
            &&& after[i].scoring == before[i].scoring
            &&& after[i].performance == before[i].performance
            &&& after[i].per_evaluator == before[i].per_evaluator
            &&& after[i].failures == before[i].failures
            &&& (before[i].status != VariantStatus::Active ==> after[i].status == before[i].status)
        }
}

/// Every variant keeps its invariant.
pub open spec fn trackers_wf(v: Seq<VariantTracker>) -> bool {
    forall|i: int| 0 <= i < v.len() ==> (#[trigger] v[i]).wf()
}

/// Every evaluator keeps its invariant.
pub open spec fn evaluators_wf(e: Seq<EvaluatorTracker>) -> bool {
    forall|i: int| 0 <= i < e.len() ==> (#[trigger] e[i]).wf()
}

/// No variant is marked as a top variant.
pub open spec fn none_included(s: Seq<Standing>) -> bool {
    forall|i: int| 0 <= i < s.len() ==> (#[trigger] s[i]).status != VariantStatus::Include
}

/// The four statuses partition the variants: their counts add up to the
/// number of variants.
pub proof fn lemma_statuses_partition(s: Seq<Standing>)
    ensures
        num_with_status(s, VariantStatus::Active) + num_with_status(s, VariantStatus::Include)
            + num_with_status(s, VariantStatus::Exclude) + num_with_status(s, VariantStatus::Failed)
            == s.len(),
{
    let n = s.len() as int;
    let all = |i: int| true;
    let live = |i: int|
        status_at(s, VariantStatus::Active)(i) || status_at(s, VariantStatus::Include)(i);
    let dead = |i: int|
        status_at(s, VariantStatus::Exclude)(i) || status_at(s, VariantStatus::Failed)(i);
    lemma_count_partition(
        n,
        live,
        status_at(s, VariantStatus::Active),
        status_at(s, VariantStatus::Include),
    );
    lemma_count_partition(
        n,
        dead,
        status_at(s, VariantStatus::Exclude),
        status_at(s, VariantStatus::Failed),
    );
    lemma_count_partition(n, all, live, dead);
    lemma_count_all(n);
}

/// Every position of a range satisfies the predicate that is always true.
proof fn lemma_count_all(n: int)
    requires
        0 <= n,
    ensures
        count_where(n, |i: int| true) == n,
    decreases n,
{
    if n > 0 {
        lemma_count_all(n - 1);
    }
}

/// Marks as failed each active variant whose failure rate lies strictly above
/// `threshold`.
pub fn mark_failed(s: &mut Vec<Standing>, threshold: u64)
    ensures
        final(s)@ == after_failures(old(s)@, threshold),
{
    let n: usize = s.len();
    let mut i: usize = 0;
    while i < n
        invariant
            n == s@.len(),
            n == old(s)@.len(),
            0 <= i <= n,
            forall|a: int| 0 <= a < i ==> #[trigger] s@[a] == after_failures(old(s)@, threshold)[a],
            forall|a: int| i <= a < n ==> #[trigger] s@[a] == old(s)@[a],
        decreases n - i,
    {
        let cur = s[i];
        if cur.status.is_active() && cur.failure_lower > threshold {
            s.set(
                i,
                Standing {
                    status: VariantStatus::Failed,
                    performance: cur.performance,
                    failure_lower: cur.failure_lower,
                },
            );
        }
        i = i + 1;
    }
    assert(s@ =~= after_failures(old(s)@, threshold));
}

/// The number of variants with status `status`.
pub fn count_status(s: &Vec<Standing>, status: VariantStatus) -> (count: usize)
    ensures
        count == num_with_status(s@, status),
{
    let n: usize = s.len();
    let mut count: usize = 0;
    let mut i: usize = 0;
    while i < n
        invariant
            n == s@.len(),
            0 <= i <= n,
            count == count_where(i as int, status_at(s@, status)),
            count <= i,
        decreases n - i,
    {
        if s[i].status == status {
            count = count + 1;
        }
        i = i + 1;
    }
    count
}

/// The number of failed variants.
pub fn count_failed(s: &Vec<Standing>) -> (count: usize)
    ensures
        count == num_failed(s@),
{
    let n: usize = s.len();
    let mut count: usize = 0;
    let mut i: usize = 0;
    while i < n
        invariant
            n == s@.len(),
            0 <= i <= n,
            count == count_where(i as int, status_at(s@, VariantStatus::Failed)),
            count <= i,
        decreases n - i,
    {
        match s[i].status {
            VariantStatus::Failed => {
                count = count + 1;
            },
            _ => {},
        }
        i = i + 1;
    }
    count
}

/// The number of other active variants that lie strictly above variant `i`.
pub fn count_losses(s: &Vec<Standing>, i: usize) -> (count: usize)
    requires
        i < s@.len(),
    ensures
        count == losses(s@, i as int),
{
    let n: usize = s.len();
    let mut count: usize = 0;
    let mut j: usize = 0;
    while j < n
        invariant
            n == s@.len(),
            i < n,
            0 <= j <= n,
            count == count_where(j as int, beaten_by(s@, i as int)),
            count <= j,
        decreases n - j,
    {
        if j != i && s[j].status.is_active() && is_separated(&s[j].performance, &s[i].performance, 0) {
            count = count + 1;
        }
        j = j + 1;
    }
    count
}

/// Marks every variant that is ruled out.
pub fn mark_excluded(s: &mut Vec<Standing>, k_max: usize)
    ensures
        final(s)@ == after_exclusions(old(s)@, k_max as int),
{
    let n: usize = s.len();
    let active: usize = count_active(s);
    if active <= k_max {
        assert(s@ =~= after_exclusions(old(s)@, k_max as int));
        return ;
    }
    let mut out: Vec<bool> = Vec::new();
    let mut i: usize = 0;
    while i < n
        invariant
            n == s@.len(),
            s@ == old(s)@,
            active == num_active(s@),
            active > k_max,
            0 <= i <= n,
            out@.len() == i,
            forall|a: int| 0 <= a < i ==> #[trigger] out@[a] == ruled_out(s@, k_max as int, a),
        decreases n - i,
    {
        let lost: usize = count_losses(s, i);
        let flag: bool = s[i].status.is_active() && lost >= active - k_max;
        out.push(flag);
        i = i + 1;
    }
    let mut i: usize = 0;
    while i < n
        invariant
            n == s@.len(),
            n == old(s)@.len(),
            out@.len() == n,
            forall|a: int| 0 <= a < n ==> #[trigger] out@[a] == ruled_out(old(s)@, k_max as int, a),
            0 <= i <= n,
            forall|a: int|
                0 <= a < i ==> #[trigger] s@[a] == after_exclusions(old(s)@, k_max as int)[a],
            forall|a: int| i <= a < n ==> #[trigger] s@[a] == old(s)@[a],
        decreases n - i,
    {
        if out[i] {
            let cur = s[i];
            s.set(
                i,
                Standing {
                    status: VariantStatus::Exclude,
                    performance: cur.performance,
                    failure_lower: cur.failure_lower,
                },
            );
        }
        i = i + 1;
    }
    assert(s@ =~= after_exclusions(old(s)@, k_max as int));
}

/// Marks the members of the top set `sel`, and rules out every other active
/// variant.
pub fn mark_selected(s: &mut Vec<Standing>, sel: &Vec<bool>)
    requires
        sel@.len() == old(s)@.len(),
    ensures
        final(s)@ == after_selection(old(s)@, sel@),
{
    let n: usize = s.len();
    let mut i: usize = 0;
    while i < n
        invariant
            n == s@.len(),
            n == old(s)@.len(),
            n == sel@.len(),
            0 <= i <= n,
            forall|a: int| 0 <= a < i ==> #[trigger] s@[a] == after_selection(old(s)@, sel@)[a],
            forall|a: int| i <= a < n ==> #[trigger] s@[a] == old(s)@[a],
        decreases n - i,
    {
        let cur = s[i];
        if cur.status.is_active() {
            let status = if sel[i] {
                VariantStatus::Include
            } else {
                VariantStatus::Exclude
            };
            s.set(
                i,
                Standing { status, performance: cur.performance, failure_lower: cur.failure_lower },
            );
        }
        i = i + 1;
    }
    assert(s@ =~= after_selection(old(s)@, sel@));
}

/// The number of picked items is the number of set flags.
pub proof fn lemma_pick_len(items: Seq<Seq<char>>, flags: Seq<bool>)
    requires
        items.len() == flags.len(),
    ensures
        pick(items, flags).len() == size(flags),
    decreases items.len(),
{
    if items.len() > 0 {
        let front = flags.drop_last();
        lemma_pick_len(items.drop_last(), front);
        lemma_count_equal(front.len() as int, chosen(front), chosen(flags));
    }
}

impl StoppingRule {
    /// Whether `decision` and the standings `after` are what the rule gives on
    /// the standings `before` of the variants named `names`, with `culprits`
    /// the evaluators over their threshold, and `exhausted` saying that no
    /// datapoint is left.
    pub open spec fn follows(
        &self,
        before: Seq<Standing>,
        names: Seq<Seq<char>>,
        culprits: Seq<Seq<char>>,
        exhausted: bool,
        after: Seq<Standing>,
        decision: Option<GlobalStoppingReason>,
    ) -> bool {
        let marked = after_failures(before, self.variant_failure_threshold);
        let sifted = after_exclusions(marked, self.k_max as int);
        if culprits.len() > 0 {
            &&& after == before
            &&& match decision {
                Some(GlobalStoppingReason::EvaluatorsFailed { evaluator_names }) => texts(
                    evaluator_names@,
                ) == culprits,
                _ => false,
            }
        } else if too_many_failed(marked, self.k_min as int) {
            &&& after == marked
            &&& match decision {
                Some(GlobalStoppingReason::TooManyVariantsFailed { num_failed: n }) => n
                    == num_failed(marked),
                _ => false,
            }
        } else if has_top_set(sifted, self.k_min as int, self.k_max as int, self.epsilon) {
            match decision {
                Some(GlobalStoppingReason::TopKFound { k, top_variants }) => {
                    let sel = candidate(sifted, k as int, self.epsilon);
                    &&& self.k_min <= k <= self.k_max
                    &&& is_top_set(sifted, sel, self.epsilon)
                    &&& size(sel) == k
                    &&& forall|other: Seq<bool>|
                        #[trigger] is_top_set(sifted, other, self.epsilon) && size(other)
                            <= self.k_max ==> size(other) <= k
                    &&& after == after_selection(sifted, sel)
                    &&& texts(top_variants@) == pick(names, sel)
                },
                _ => false,
            }
        } else if exhausted {
            &&& after == sifted
            &&& decision matches Some(GlobalStoppingReason::DatasetExhausted)
        } else {
            &&& after == sifted
            &&& decision is None
        }
    }

    /// A status only moves away from active: whatever the rule decides, a
    /// variant that was not active before stands afterwards as it stood.
    pub proof fn lemma_status_monotone(
        &self,
        before: Seq<Standing>,
        names: Seq<Seq<char>>,
        culprits: Seq<Seq<char>>,
        exhausted: bool,
        after: Seq<Standing>,
        decision: Option<GlobalStoppingReason>,
    )
        requires
            self.follows(before, names, culprits, exhausted, after, decision),
        ensures
            after.len() == before.len(),
            forall|i: int|
                0 <= i < before.len() && (#[trigger] before[i]).status != VariantStatus::Active
                    ==> after[i].status == before[i].status,
            forall|i: int|
                0 <= i < before.len() ==> (#[trigger] after[i]).performance == before[i].performance
                    && after[i].failure_lower == before[i].failure_lower,
    {
        let marked = after_failures(before, self.variant_failure_threshold);
        let sifted = after_exclusions(marked, self.k_max as int);
        assert forall|i: int| 0 <= i < before.len() implies (before[i].status
            != VariantStatus::Active ==> (#[trigger] after[i]).status == before[i].status)
            && after[i].performance == before[i].performance && after[i].failure_lower
            == before[i].failure_lower by {
            assert(marked[i].performance == before[i].performance);
            assert(sifted[i].performance == before[i].performance);
            assert(before[i].status != VariantStatus::Active ==> sifted[i].status
                == before[i].status);
        }
    }

    /// Where the rule ends a run with a top set of `k` variants, and no variant
    /// was marked as a top variant before: `k` is a wanted size, `k` names are
    /// reported, their variants are marked as top variants, and every other
    /// variant is ruled out or failed.
    pub proof fn lemma_top_k_found(
        &self,
        before: Seq<Standing>,
        names: Seq<Seq<char>>,
        culprits: Seq<Seq<char>>,
        exhausted: bool,
        after: Seq<Standing>,
        decision: Option<GlobalStoppingReason>,
    )
        requires
            names.len() == before.len(),
            none_included(before),
            self.follows(before, names, culprits, exhausted, after, decision),
            decision matches Some(GlobalStoppingReason::TopKFound { .. }),
        ensures
            match decision {
                Some(GlobalStoppingReason::TopKFound { k, top_variants }) => {
                    let sifted = after_exclusions(
                        after_failures(before, self.variant_failure_threshold),
                        self.k_max as int,
                    );
                    let sel = candidate(sifted, k as int, self.epsilon);
                    &&& self.k_min <= k <= self.k_max
                    &&& top_variants@.len() == k
                    &&& texts(top_variants@) == pick(names, sel)
                    &&& num_with_status(after, VariantStatus::Include) == k
                    &&& forall|i: int|
                        0 <= i < after.len() ==> if sel[i] {
                            (#[trigger] after[i]).status == VariantStatus::Include
                        } else {
                            after[i].status == VariantStatus::Exclude || after[i].status
                                == VariantStatus::Failed
                        }
                },
                _ => false,
            },
    {
        let marked = after_failures(before, self.variant_failure_threshold);
        let sifted = after_exclusions(marked, self.k_max as int);
        match decision {
            Some(GlobalStoppingReason::TopKFound { k, top_variants }) => {
                let sel = candidate(sifted, k as int, self.epsilon);
                lemma_pick_len(names, sel);
                assert(texts(top_variants@).len() == top_variants@.len());
                assert forall|i: int| 0 <= i < after.len() implies if sel[i] {
                    (#[trigger] after[i]).status == VariantStatus::Include
                } else {
                    after[i].status == VariantStatus::Exclude || after[i].status
                        == VariantStatus::Failed
                } by {
                    assert(before[i].status != VariantStatus::Include);
                    assert(marked[i].status != VariantStatus::Include);
                    assert(sifted[i].status != VariantStatus::Include);
                }
                assert forall|i: int| 0 <= i < after.len() implies (#[trigger] status_at(
                    after,
                    VariantStatus::Include,
                )(i) == chosen(sel)(i)) by {
                    assert(after[i].status == VariantStatus::Include <==> sel[i]);
                }
                lemma_count_equal(
                    after.len() as int,
                    status_at(after, VariantStatus::Include),
                    chosen(sel),
                );
            },
            _ => {},
        }
    }

    /// Where the rule ends a run because too many variants have failed, the
    /// reported number is the number of failed variants, and the variants that
    /// have not failed are fewer than `k_min`.
    pub proof fn lemma_too_many_failed(
        &self,
        before: Seq<Standing>,
        names: Seq<Seq<char>>,
        culprits: Seq<Seq<char>>,
        exhausted: bool,
        after: Seq<Standing>,
        decision: Option<GlobalStoppingReason>,
    )
        requires
            self.follows(before, names, culprits, exhausted, after, decision),
            decision matches Some(GlobalStoppingReason::TooManyVariantsFailed { .. }),
        ensures
            match decision {
                Some(GlobalStoppingReason::TooManyVariantsFailed { num_failed: n }) => {
                    &&& n == num_failed(after)
                    &&& after.len() - n < self.k_min
                },
                _ => false,
            },
    {
    }

    /// Evaluates the rule on the trackers, and marks the variants as it says.
    /// The result is the reason to stop, or `None` to go on sampling.
    pub fn evaluate(
        &self,
        variants: &mut Vec<VariantTracker>,
        evaluators: &Vec<EvaluatorTracker>,
        exhausted: bool,
    ) -> (decision: Option<GlobalStoppingReason>)
        requires
            trackers_wf(old(variants)@),
        ensures
            trackers_wf(final(variants)@),
            only_statuses_moved(old(variants)@, final(variants)@),
            self.follows(
                standings(old(variants)@),
                variant_names(old(variants)@),
                failed_evaluators(evaluators@, self.evaluator_failure_threshold),
                exhausted,
                standings(final(variants)@),
                decision,
            ),
    {
        let culprits = failing_evaluators(evaluators, self.evaluator_failure_threshold);
        if culprits.len() > 0 {
            assert(standings(variants@) =~= standings(old(variants)@));
            return Some(GlobalStoppingReason::EvaluatorsFailed { evaluator_names: culprits });
        }
        assert(texts(culprits@).len() == 0);
        let mut s = snapshot(variants);
        let ghost before = s@;
        mark_failed(&mut s, self.variant_failure_threshold);
        let ghost marked = s@;
        let failed: usize = count_failed(&s);
        let n: usize = s.len();
        proof {
            lemma_count_bound(n as int, status_at(s@, VariantStatus::Failed));
        }
        if failed as u128 + self.k_min as u128 > n as u128 {
            write_back(variants, &s);
            return Some(GlobalStoppingReason::TooManyVariantsFailed { num_failed: failed });
        }
        mark_excluded(&mut s, self.k_max as usize);
        let ghost sifted = s@;
        assert(standings_wf(sifted)) by {
            assert forall|i: int| 0 <= i < sifted.len() implies (#[trigger] sifted[i]).performance.wf() by {
                assert(old(variants)@[i].wf());
                lemma_average_score_wf(old(variants)@[i].per_evaluator@);
                assert(marked[i].performance == before[i].performance);
            }
        }
        match find_top_set(&s, self.k_min as usize, self.k_max as usize, self.epsilon) {
            Some(sel) => {
                let members: usize = count_chosen(&sel);
                let top_variants = pick_variants(variants, &sel);
                proof {
                    lemma_top_set_is_candidate(sifted, sel@, self.epsilon);
                    assert(is_top_set(sifted, sel@, self.epsilon) && self.k_min <= size(sel@)
                        <= self.k_max);
                }
                mark_selected(&mut s, &sel);
                write_back(variants, &s);
                Some(GlobalStoppingReason::TopKFound { k: members as u32, top_variants })
            },
            None => {
                write_back(variants, &s);
                if exhausted {
                    Some(GlobalStoppingReason::DatasetExhausted)
                } else {
                    None
                }
            },
        }
    }
}

/// What the rule reads of the variants.
pub fn snapshot(variants: &Vec<VariantTracker>) -> (s: Vec<Standing>)
    ensures
        s@ == standings(variants@),
{
    let n: usize = variants.len();
    let mut s: Vec<Standing> = Vec::new();
    let mut i: usize = 0;
    while i < n
        invariant
            n == variants@.len(),
            0 <= i <= n,
            s@.len() == i,
            forall|a: int| 0 <= a < i ==> #[trigger] s@[a] == standings(variants@)[a],
        decreases n - i,
    {
        let v = &variants[i];
        s.push(
            Standing {
                status: v.status,
                performance: v.performance,
                failure_lower: v.failures.cs_lower,
            },
        );
        i = i + 1;
    }
    assert(s@ =~= standings(variants@));
    s
}

/// Gives every variant the status that the standings hold for it.
fn write_back(variants: &mut Vec<VariantTracker>, s: &Vec<Standing>)
    requires
        s@.len() == old(variants)@.len(),
        trackers_wf(old(variants)@),
        forall|i: int|
            0 <= i < s@.len() ==> {
                &&& (#[trigger] s@[i]).performance == old(variants)@[i].performance
                &&& s@[i].failure_lower == old(variants)@[i].failures.cs_lower
                &&& (old(variants)@[i].status != VariantStatus::Active ==> s@[i].status == old(
                    variants,
                )@[i].status)
            },
    ensures
        trackers_wf(final(variants)@),
        only_statuses_moved(old(variants)@, final(variants)@),
        standings(final(variants)@) == s@,
{
    let n: usize = variants.len();
    let mut i: usize = 0;
    while i < n
        invariant
            n == variants@.len(),
            n == old(variants)@.len(),
            n == s@.len(),
            0 <= i <= n,
            forall|a: int|
                0 <= a < n ==> {
                    &&& (#[trigger] variants@[a]).name == old(variants)@[a].name
                    &&& variants@[a].scoring == old(variants)@[a].scoring
                    &&& variants@[a].performance == old(variants)@[a].performance
                    &&& variants@[a].per_evaluator == old(variants)@[a].per_evaluator
                    &&& variants@[a].failures == old(variants)@[a].failures
                },
            forall|a: int| 0 <= a < i ==> (#[trigger] variants@[a]).status == s@[a].status,
            forall|a: int| i <= a < n ==> (#[trigger] variants@[a]).status == old(variants)@[a].status,
        decreases n - i,
    {
        variants[i].status = s[i].status;
        i = i + 1;
    }
    assert(standings(variants@) =~= s@);
    assert forall|a: int| 0 <= a < n implies (#[trigger] variants@[a]).wf() by {
        assert(old(variants)@[a].wf());
    }
}

/// The names of the variants that `sel` selects, in order.
pub fn pick_variants(variants: &Vec<VariantTracker>, sel: &Vec<bool>) -> (names: Vec<String>)
    requires
        sel@.len() == variants@.len(),
    ensures
        texts(names@) == pick(variant_names(variants@), sel@),
{
    let n: usize = variants.len();
    let mut names: Vec<String> = Vec::new();
    let mut i: usize = 0;
    while i < n
        invariant
            n == variants@.len(),
            n == sel@.len(),
            0 <= i <= n,
            texts(names@) == pick(
                variant_names(variants@).subrange(0, i as int),
                sel@.subrange(0, i as int),
            ),
        decreases n - i,
    {
        proof {
            let items = variant_names(variants@).subrange(0, i + 1);
            let flags = sel@.subrange(0, i + 1);
            assert(items.drop_last() =~= variant_names(variants@).subrange(0, i as int));
            assert(flags.drop_last() =~= sel@.subrange(0, i as int));
        }
        if sel[i] {
            let ghost prior = names@;
            names.push(variants[i].name.clone());
            assert(texts(names@) =~= texts(prior).push(variants@[i as int].name@));
        }
        i = i + 1;
    }
    assert(variant_names(variants@).subrange(0, n as int) =~= variant_names(variants@));
    assert(sel@.subrange(0, n as int) =~= sel@);
    names
}

/// The names of the evaluators that are over the failure threshold, in order.
pub fn failing_evaluators(evaluators: &Vec<EvaluatorTracker>, threshold: u64) -> (names: Vec<String>)
    ensures
        texts(names@) == failed_evaluators(evaluators@, threshold),
{
    let n: usize = evaluators.len();
    let mut names: Vec<String> = Vec::new();
    let mut i: usize = 0;
    while i < n
        invariant
            n == evaluators@.len(),
            0 <= i <= n,
            texts(names@) == pick(
                evaluator_names(evaluators@).subrange(0, i as int),
                over_flags(evaluators@, threshold).subrange(0, i as int),
            ),
        decreases n - i,
    {
        proof {
            let items = evaluator_names(evaluators@).subrange(0, i + 1);
            let flags = over_flags(evaluators@, threshold).subrange(0, i + 1);
            assert(items.drop_last() =~= evaluator_names(evaluators@).subrange(0, i as int));
            assert(flags.drop_last() =~= over_flags(evaluators@, threshold).subrange(0, i as int));
        }
        if evaluators[i].is_over_threshold(threshold) {
            let ghost prior = names@;
            names.push(evaluators[i].name.clone());
            assert(texts(names@) =~= texts(prior).push(evaluators@[i as int].name@));
        }
        i = i + 1;
    }
    assert(evaluator_names(evaluators@).subrange(0, n as int) =~= evaluator_names(evaluators@));
    assert(over_flags(evaluators@, threshold).subrange(0, n as int) =~= over_flags(
        evaluators@,
        threshold,
    ));
    names
}

} // verus!
