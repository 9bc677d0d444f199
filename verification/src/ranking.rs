//! Ranking: which sets of variants are separated from all the others.
//!
//! A set of active variants is a top set when each member lies above every
//! active variant outside the set, with the required gap between the member's
//! lower end and the other's upper end. Top sets of one size are unique, so the
//! largest size in the wanted range names one set.

use vstd::prelude::*;
use crate::counting::{
    count_where,
    lemma_count_monotone,
    lemma_count_partition,
    lemma_count_without,
};
use crate::scorer::ScoreInterval;
use crate::tracker::VariantStatus;

verus! {

/// What the stopping rule reads of one variant.
#[derive(Debug, Clone, Copy, PartialEq, Eq, Structural)]
pub struct Standing {
    /// Where the variant stands.
    pub status: VariantStatus,
    /// The variant's score with its interval.
    pub performance: ScoreInterval,
    /// The lower end of the variant's failure rate.
    pub failure_lower: u64,
}

impl VariantStatus {
    /// Whether the variant is still sampled and compared.
    pub fn is_active(&self) -> (active: bool)
        ensures
            active == (*self == VariantStatus::Active),
    {
        match self {
            VariantStatus::Active => true,
            _ => false,
        }
    }
}

/// Every score interval is valid.
pub open spec fn standings_wf(s: Seq<Standing>) -> bool {
    forall|i: int| 0 <= i < s.len() ==> (#[trigger] s[i]).performance.wf()
}

/// Whether `a` lies above `b` with the gap `epsilon`: the lower end of `a` is at
/// least `epsilon` above the upper end of `b`, and strictly above it when
/// `epsilon` is zero. Equal ends never separate.
pub open spec fn separated(a: ScoreInterval, b: ScoreInterval, epsilon: u64) -> bool {
    if epsilon == 0 {
        a.cs_lower > b.cs_upper
    } else {
        a.cs_lower >= b.cs_upper + epsilon
    }
}

/// Whether variant `i` lies above variant `j` with the gap `epsilon`.
pub open spec fn above(s: Seq<Standing>, i: int, j: int, epsilon: u64) -> bool {
    separated(s[i].performance, s[j].performance, epsilon)
}

/// The predicate "position `i` holds an active variant".
pub open spec fn active_at(s: Seq<Standing>) -> spec_fn(int) -> bool {
    |i: int| 0 <= i < s.len() && s[i].status == VariantStatus::Active
}

/// The number of active variants.
pub open spec fn num_active(s: Seq<Standing>) -> nat {
    count_where(s.len() as int, active_at(s))
}

/// The predicate "`j` is another active variant, and `i` lies above it".
pub open spec fn beats(s: Seq<Standing>, i: int, epsilon: u64) -> spec_fn(int) -> bool {
    |j: int| j != i && active_at(s)(j) && above(s, i, j, epsilon)
}

/// The number of other active variants that `i` lies above.
pub open spec fn wins(s: Seq<Standing>, i: int, epsilon: u64) -> nat {
    count_where(s.len() as int, beats(s, i, epsilon))
}

/// The predicate "position `i` is selected".
pub open spec fn chosen(sel: Seq<bool>) -> spec_fn(int) -> bool {
    |i: int| 0 <= i < sel.len() && sel[i]
}

/// The number of selected positions.
pub open spec fn size(sel: Seq<bool>) -> nat {
    count_where(sel.len() as int, chosen(sel))
}

/// Whether the selection `sel` is a top set: its members are active, and each
/// lies above every active variant that is not a member.
pub open spec fn is_top_set(s: Seq<Standing>, sel: Seq<bool>, epsilon: u64) -> bool {
    &&& sel.len() == s.len()
    &&& forall|i: int| 0 <= i < s.len() && #[trigger] sel[i] ==> s[i].status == VariantStatus::Active
    &&& forall|i: int, j: int|
        0 <= i < s.len() && 0 <= j < s.len() && sel[i] && !sel[j] && s[j].status
            == VariantStatus::Active ==> #[trigger] above(s, i, j, epsilon)
}

/// The only selection that can be a top set of size `k`: the active variants
/// that lie above all but at most `k - 1` of the other active variants.
pub open spec fn candidate(s: Seq<Standing>, k: int, epsilon: u64) -> Seq<bool> {
    Seq::new(
        s.len(),
        |i: int| s[i].status == VariantStatus::Active && wins(s, i, epsilon) + k >= num_active(s),
    )
}

/// Two valid intervals cannot each lie above the other.
pub proof fn lemma_separated_asymmetric(a: ScoreInterval, b: ScoreInterval, epsilon: u64)
    requires
        a.wf(),
        b.wf(),
        separated(a, b, epsilon),
    ensures
        !separated(b, a, epsilon),
{
}

/// A top set of size `k` is the candidate of size `k`, and has no more members
/// than there are active variants.
pub proof fn lemma_top_set_is_candidate(s: Seq<Standing>, sel: Seq<bool>, epsilon: u64)
    requires
        standings_wf(s),
        is_top_set(s, sel, epsilon),
    ensures
        sel =~= candidate(s, size(sel) as int, epsilon),
        size(sel) <= num_active(s),
{
    let n = s.len() as int;
    let k = size(sel) as int;
    let a = num_active(s) as int;
    let outside = |j: int| active_at(s)(j) && !sel[j];
    assert forall|j: int| 0 <= j < n implies (#[trigger] active_at(s)(j) <==> (chosen(sel)(j)
        || outside(j))) by {
        if sel[j] {
            assert(s[j].status == VariantStatus::Active);
        }
    }
    lemma_count_partition(n, active_at(s), chosen(sel), outside);
    let rest_count = count_where(n, outside) as int;
    assert(a == k + rest_count);
    assert forall|i: int| 0 <= i < n implies sel[i] == #[trigger] candidate(s, k, epsilon)[i] by {
        if sel[i] {
            assert(s[i].status == VariantStatus::Active);
            assert forall|j: int| 0 <= j < n && #[trigger] outside(j) implies beats(s, i, epsilon)(
                j,
            ) by {
                assert(above(s, i, j, epsilon));
            }
            lemma_count_monotone(n, outside, beats(s, i, epsilon));
        } else if s[i].status == VariantStatus::Active {
            let rest = |j: int| outside(j) && j != i;
            assert(outside(i));
            lemma_count_without(n, outside, rest, i);
            assert forall|j: int| 0 <= j < n && #[trigger] beats(s, i, epsilon)(j) implies rest(
                j,
            ) by {
                if sel[j] {
                    assert(above(s, j, i, epsilon));
                    assert(s[i].performance.wf());
                    assert(s[j].performance.wf());
                    lemma_separated_asymmetric(s[j].performance, s[i].performance, epsilon);
                }
            }
            lemma_count_monotone(n, beats(s, i, epsilon), rest);
        }
    }
}

/// Top sets of equal size are equal.
pub proof fn lemma_top_set_unique(s: Seq<Standing>, first: Seq<bool>, second: Seq<bool>, epsilon: u64)
    requires
        standings_wf(s),
        is_top_set(s, first, epsilon),
        is_top_set(s, second, epsilon),
        size(first) == size(second),
    ensures
        first == second,
{
    lemma_top_set_is_candidate(s, first, epsilon);
    lemma_top_set_is_candidate(s, second, epsilon);
    assert(first =~= second);
}

/// Whether `a` lies above `b` with the gap `epsilon`.
pub fn is_separated(a: &ScoreInterval, b: &ScoreInterval, epsilon: u64) -> (result: bool)
    ensures
        result == separated(*a, *b, epsilon),
{
    if epsilon == 0 {
        a.cs_lower > b.cs_upper
    } else {
        a.cs_lower as u128 >= b.cs_upper as u128 + epsilon as u128
    }
}

/// The number of active variants.
pub fn count_active(s: &Vec<Standing>) -> (count: usize)
    ensures
        count == num_active(s@),
{
    let n: usize = s.len();
    let mut count: usize = 0;
    let mut i: usize = 0;
    while i < n
        invariant
            n == s@.len(),
            0 <= i <= n,
            count == count_where(i as int, active_at(s@)),
            count <= i,
        decreases n - i,
    {
        if s[i].status.is_active() {
            count = count + 1;
        }
        i = i + 1;
    }
    count
}

/// The number of other active variants that variant `i` lies above.
pub fn count_wins(s: &Vec<Standing>, i: usize, epsilon: u64) -> (count: usize)
    requires
        i < s@.len(),
    ensures
        count == wins(s@, i as int, epsilon),
{
    let n: usize = s.len();
    let mut count: usize = 0;
    let mut j: usize = 0;
    while j < n
        invariant
            n == s@.len(),
            i < n,
            0 <= j <= n,
            count == count_where(j as int, beats(s@, i as int, epsilon)),
            count <= j,
        decreases n - j,
    {
        if j != i && s[j].status.is_active() && is_separated(
            &s[i].performance,
            &s[j].performance,
            epsilon,
        ) {
            count = count + 1;
        }
        j = j + 1;
    }
    count
}

/// The number of selected positions.
pub fn count_chosen(sel: &Vec<bool>) -> (count: usize)
    ensures
        count == size(sel@),
{
    let n: usize = sel.len();
    let mut count: usize = 0;
    let mut i: usize = 0;
    while i < n
        invariant
            n == sel@.len(),
            0 <= i <= n,
            count == count_where(i as int, chosen(sel@)),
            count <= i,
        decreases n - i,
    {
        if sel[i] {
            count = count + 1;
        }
        i = i + 1;
    }
    count
}

/// Whether the selection `sel` is a top set.
pub fn check_top_set(s: &Vec<Standing>, sel: &Vec<bool>, epsilon: u64) -> (result: bool)
    ensures
        result == is_top_set(s@, sel@, epsilon),
{
    let n: usize = s.len();
    if sel.len() != n {
        return false;
    }
    let mut i: usize = 0;
    while i < n
        invariant
            n == s@.len(),
            n == sel@.len(),
            0 <= i <= n,
            forall|a: int| 0 <= a < i && #[trigger] sel@[a] ==> s@[a].status == VariantStatus::Active,
            forall|a: int, b: int|
                0 <= a < i && 0 <= b < n && sel@[a] && !sel@[b] && s@[b].status
                    == VariantStatus::Active ==> #[trigger] above(s@, a, b, epsilon),
        decreases n - i,
    {
        if sel[i] {
            if !s[i].status.is_active() {
                return false;
            }
            let mut j: usize = 0;
            while j < n
                invariant
                    n == s@.len(),
                    n == sel@.len(),
                    0 <= i < n,
                    0 <= j <= n,
                    sel@[i as int],
                    forall|b: int|
                        0 <= b < j && !sel@[b] && s@[b].status == VariantStatus::Active
                            ==> #[trigger] above(s@, i as int, b, epsilon),
                decreases n - j,
            {
                if !sel[j] && s[j].status.is_active() && !is_separated(
                    &s[i].performance,
                    &s[j].performance,
                    epsilon,
                ) {
                    assert(!above(s@, i as int, j as int, epsilon));
                    return false;
                }
                j = j + 1;
            }
        }
        i = i + 1;
    }
    true
}

/// The flags of the candidate of size `k`, from the wins of every variant.
fn candidate_flags(s: &Vec<Standing>, won: &Vec<usize>, active: usize, k: usize, epsilon: u64) -> (sel:
    Vec<bool>)
    requires
        won@.len() == s@.len(),
        forall|i: int| 0 <= i < s@.len() ==> #[trigger] won@[i] == wins(s@, i, epsilon),
        active == num_active(s@),
        k <= active,
    ensures
        sel@ == candidate(s@, k as int, epsilon),
{
    let n: usize = s.len();
    let mut sel: Vec<bool> = Vec::new();
    let mut i: usize = 0;
    while i < n
        invariant
            n == s@.len(),
            won@.len() == n,
            forall|a: int| 0 <= a < n ==> #[trigger] won@[a] == wins(s@, a, epsilon),
            active == num_active(s@),
            k <= active,
            0 <= i <= n,
            sel@.len() == i,
            forall|a: int| 0 <= a < i ==> sel@[a] == #[trigger] candidate(s@, k as int, epsilon)[a],
        decreases n - i,
    {
        let flag: bool = s[i].status.is_active() && won[i] >= active - k;
        sel.push(flag);
        i = i + 1;
    }
    assert(sel@ =~= candidate(s@, k as int, epsilon));
    sel
}

/// The largest top set with at least `k_min` and at most `k_max` members, if
/// there is one. Each flag of the result says whether the variant at that
/// position is a member.
pub fn find_top_set(s: &Vec<Standing>, k_min: usize, k_max: usize, epsilon: u64) -> (result: Option<
    Vec<bool>,
>)
    requires
        standings_wf(s@),
    ensures
        match result {
            Some(sel) => {
                &&& is_top_set(s@, sel@, epsilon)
                &&& sel@ == candidate(s@, size(sel@) as int, epsilon)
                &&& k_min <= size(sel@) <= k_max
                &&& forall|other: Seq<bool>|
                    #[trigger] is_top_set(s@, other, epsilon) && size(other) <= k_max ==> size(other)
                        <= size(sel@)
            },
            None => forall|other: Seq<bool>|
                #[trigger] is_top_set(s@, other, epsilon) ==> !(k_min <= size(other) <= k_max),
        },
{
    let n: usize = s.len();
    let active: usize = count_active(s);
    let mut won: Vec<usize> = Vec::new();
    let mut i: usize = 0;
    while i < n
        invariant
            n == s@.len(),
            0 <= i <= n,
            won@.len() == i,
            forall|a: int| 0 <= a < i ==> #[trigger] won@[a] == wins(s@, a, epsilon),
        decreases n - i,
    {
        let w: usize = count_wins(s, i, epsilon);
        won.push(w);
        i = i + 1;
    }
    let mut k: usize = if k_max < active {
        k_max
    } else {
        active
    };
    proof {
        assert forall|other: Seq<bool>| #[trigger]
            is_top_set(s@, other, epsilon) && size(other) <= k_max implies size(other) <= k by {
            lemma_top_set_is_candidate(s@, other, epsilon);
        }
    }
    while k >= k_min
        invariant
            n == s@.len(),
            standings_wf(s@),
            won@.len() == n,
            forall|a: int| 0 <= a < n ==> #[trigger] won@[a] == wins(s@, a, epsilon),
            active == num_active(s@),
            k <= active,
            k <= k_max,
            forall|other: Seq<bool>|
                #[trigger] is_top_set(s@, other, epsilon) && size(other) <= k_max ==> size(other)
                    <= k,
        decreases k,
    {
        let sel = candidate_flags(s, &won, active, k, epsilon);
        let members: usize = count_chosen(&sel);
        if members == k && check_top_set(s, &sel, epsilon) {
            return Some(sel);
        }
        proof {
            assert forall|other: Seq<bool>| #[trigger]
                is_top_set(s@, other, epsilon) && size(other) <= k_max implies size(other) < k by {
                if size(other) == k {
                    lemma_top_set_is_candidate(s@, other, epsilon);
                    assert(other == sel@);
                }
            }
        }
        if k == 0 {
            return None;
        }
        k = k - 1;
    }
    None
}

} // verus!
