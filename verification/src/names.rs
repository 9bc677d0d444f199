//! The order of names.
//!
//! Names are ordered as strings are: lexicographically by the bytes of their
//! UTF-8 encoding.

use vstd::prelude::*;
use vstd::seq_lib::to_multiset_insert;
use vstd::string::*;
use vstd::utf8::encode_utf8;

verus! {

/// Whether the bytes of `a` from `from` on come before those of `b`, or are
/// the same, in lexicographic order. Both agree before `from`.
pub open spec fn bytes_le(a: Seq<u8>, b: Seq<u8>, from: int) -> bool
    decreases a.len() - from,
{
    if from < 0 || from >= a.len() {
        true
    } else if from >= b.len() {
        false
    } else if a[from] != b[from] {
        a[from] < b[from]
    } else {
        bytes_le(a, b, from + 1)
    }
}

/// Whether the text `a` comes before the text `b`, or is `b`.
pub open spec fn text_le(a: Seq<char>, b: Seq<char>) -> bool {
    bytes_le(encode_utf8(a), encode_utf8(b), 0)
}

/// Whether the texts stand in ascending order.
pub open spec fn ascending(t: Seq<Seq<char>>) -> bool {
    forall|i: int, j: int| 0 <= i <= j < t.len() ==> text_le(#[trigger] t[i], #[trigger] t[j])
}

/// The texts of a sequence of strings.
pub open spec fn texts(v: Seq<String>) -> Seq<Seq<char>> {
    Seq::new(v.len(), |i: int| v[i]@)
}

/// Of two sequences that agree before `from`, one comes before the other or
/// is the same.
pub proof fn lemma_bytes_le_total(a: Seq<u8>, b: Seq<u8>, from: int)
    requires
        0 <= from,
    ensures
        bytes_le(a, b, from) || bytes_le(b, a, from),
    decreases a.len() - from,
{
    if from < a.len() && from < b.len() && a[from] == b[from] {
        lemma_bytes_le_total(a, b, from + 1);
    }
}

/// The order is transitive on sequences that agree before `from`.
pub proof fn lemma_bytes_le_transitive(a: Seq<u8>, b: Seq<u8>, c: Seq<u8>, from: int)
    requires
        0 <= from,
        bytes_le(a, b, from),
        bytes_le(b, c, from),
    ensures
        bytes_le(a, c, from),
    decreases a.len() - from,
{
    if from < a.len() {
        if a[from] == b[from] && b[from] == c[from] {
            lemma_bytes_le_transitive(a, b, c, from + 1);
        }
    }
}

/// Every sequence comes before itself or is the same.
pub proof fn lemma_bytes_le_reflexive(a: Seq<u8>, from: int)
    requires
        0 <= from,
    ensures
        bytes_le(a, a, from),
    decreases a.len() - from,
{
    if from < a.len() {
        lemma_bytes_le_reflexive(a, from + 1);
    }
}

/// Whether the name `a` comes before the name `b`, or is `b`.
pub fn name_le(a: &String, b: &String) -> (result: bool)
    ensures
        result == text_le(a@, b@),
{
    let x = a.as_str().as_bytes();
    let y = b.as_str().as_bytes();
    let n: usize = x.len();
    let m: usize = y.len();
    let mut i: usize = 0;
    while i < n
        invariant
            n == x@.len(),
            m == y@.len(),
            x@ == encode_utf8(a@),
            y@ == encode_utf8(b@),
            0 <= i <= n,
            bytes_le(x@, y@, 0) == bytes_le(x@, y@, i as int),
        decreases n - i,
    {
        if i >= m {
            return false;
        }
        if x[i] != y[i] {
            return x[i] < y[i];
        }
        i = i + 1;
    }
    true
}

/// A copy of `names`.
pub fn copy_names(names: &Vec<String>) -> (copy: Vec<String>)
    ensures
        texts(copy@) == texts(names@),
{
    let n: usize = names.len();
    let mut copy: Vec<String> = Vec::new();
    let mut i: usize = 0;
    while i < n
        invariant
            n == names@.len(),
            0 <= i <= n,
            copy@.len() == i,
            forall|a: int| 0 <= a < i ==> (#[trigger] copy@[a])@ == names@[a]@,
        decreases n - i,
    {
        copy.push(names[i].clone());
        i = i + 1;
    }
    assert(texts(copy@) =~= texts(names@));
    copy
}

/// Whether two lists hold the same names in the same order.
pub fn same_names(a: &Vec<String>, b: &Vec<String>) -> (same: bool)
    ensures
        same == (texts(a@) == texts(b@)),
{
    let n: usize = a.len();
    if b.len() != n {
        assert(texts(a@).len() != texts(b@).len());
        return false;
    }
    let mut i: usize = 0;
    while i < n
        invariant
            n == a@.len(),
            n == b@.len(),
            0 <= i <= n,
            forall|k: int| 0 <= k < i ==> (#[trigger] a@[k])@ == b@[k]@,
        decreases n - i,
    {
        if a[i] != b[i] {
            assert(texts(a@)[i as int] != texts(b@)[i as int]);
            return false;
        }
        i = i + 1;
    }
    assert(texts(a@) =~= texts(b@));
    true
}

/// The names in ascending order: the same names, each as often as in `names`.
pub fn in_order(names: &Vec<String>) -> (sorted: Vec<String>)
    ensures
        texts(sorted@).to_multiset() == texts(names@).to_multiset(),
        ascending(texts(sorted@)),
{
    let n: usize = names.len();
    let mut sorted: Vec<String> = Vec::new();
    let mut i: usize = 0;
    assert(texts(sorted@) =~= texts(names@.subrange(0, 0)));
    while i < n
        invariant
            n == names@.len(),
            0 <= i <= n,
            sorted@.len() == i,
            texts(sorted@).to_multiset() == texts(names@.subrange(0, i as int)).to_multiset(),
            ascending(texts(sorted@)),
        decreases n - i,
    {
        let name = names[i].clone();
        let mut at: usize = 0;
        while at < i && name_le(&sorted[at], &name)
            invariant
                sorted@.len() == i,
                0 <= at <= i,
                forall|k: int| 0 <= k < at ==> text_le(#[trigger] texts(sorted@)[k], name@),
            decreases i - at,
        {
            at = at + 1;
        }
        let ghost before = texts(sorted@);
        let ghost given = texts(names@.subrange(0, i as int));
        sorted.insert(at, name);
        proof {
            let after = texts(sorted@);
            assert(after =~= before.insert(at as int, name@));
            to_multiset_insert(before, at as int, name@);
            let next = texts(names@.subrange(0, i + 1));
            assert(next =~= given.push(name@));
            given.to_multiset_ensures();
            assert forall|p: int, q: int| 0 <= p <= q < after.len() implies text_le(
                #[trigger] after[p],
                #[trigger] after[q],
            ) by {
                let x = encode_utf8(name@);
                if p == at && q == at {
                    lemma_bytes_le_reflexive(x, 0);
                } else if q == at {
                    assert(after[p] == before[p]);
                } else if p == at {
                    assert(after[q] == before[q - 1]);
                    let first = encode_utf8(before[at as int]);
                    lemma_bytes_le_total(first, x, 0);
                    assert(text_le(before[at as int], before[q - 1]));
                    lemma_bytes_le_transitive(x, first, encode_utf8(before[q - 1]), 0);
                } else if q < at {
                    assert(after[p] == before[p] && after[q] == before[q]);
                } else if p < at {
                    assert(after[p] == before[p] && after[q] == before[q - 1]);
                } else {
                    assert(after[p] == before[p - 1] && after[q] == before[q - 1]);
                }
            }
        }
        i = i + 1;
    }
    assert(names@.subrange(0, n as int) =~= names@);
    sorted
}

} // verus!
