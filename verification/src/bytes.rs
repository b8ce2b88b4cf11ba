//! Where two byte sequences part ways.

use vstd::prelude::*;

verus! {

/// The first position from `start` on at which `a` and `b` differ, or at
/// which the shorter of the two ends.
pub open spec fn difference_from(a: Seq<u8>, b: Seq<u8>, start: int) -> int
    decreases a.len() - start,
{
    if 0 <= start < a.len() && start < b.len() && a[start] == b[start] {
        difference_from(a, b, start + 1)
    } else {
        start
    }
}

/// The length of the longest common prefix of `a` and `b`: the first position
/// at which they differ, or at which the shorter of the two ends.
pub open spec fn first_difference(a: Seq<u8>, b: Seq<u8>) -> int {
    difference_from(a, b, 0)
}

/// `difference_from` stops at the first position from `start` on that holds
/// different bytes, and not before.
proof fn lemma_difference_from(a: Seq<u8>, b: Seq<u8>, start: int)
    requires
        0 <= start <= a.len(),
        start <= b.len(),
    ensures
        start <= difference_from(a, b, start) <= a.len(),
        difference_from(a, b, start) <= b.len(),
        forall|j: int| start <= j < difference_from(a, b, start) ==> a[j] == b[j],
        difference_from(a, b, start) < a.len() && difference_from(a, b, start) < b.len() ==> a[difference_from(
            a,
            b,
            start,
        )] != b[difference_from(a, b, start)],
    decreases a.len() - start,
{
    if start < a.len() && start < b.len() && a[start] == b[start] {
        lemma_difference_from(a, b, start + 1);
    }
}

/// The two sequences agree before their first difference, and differ at it
/// unless one of them ends there.
pub proof fn lemma_first_difference(a: Seq<u8>, b: Seq<u8>)
    ensures
        0 <= first_difference(a, b) <= a.len(),
        first_difference(a, b) <= b.len(),
        forall|j: int| 0 <= j < first_difference(a, b) ==> a[j] == b[j],
        first_difference(a, b) < a.len() && first_difference(a, b) < b.len() ==> a[first_difference(a, b)]
            != b[first_difference(a, b)],
{
    lemma_difference_from(a, b, 0);
}

/// A position before which the two sequences agree, and at which they differ
/// or one of them ends, is their first difference.
pub proof fn lemma_first_difference_unique(a: Seq<u8>, b: Seq<u8>, k: int)
    requires
        0 <= k <= a.len(),
        k <= b.len(),
        forall|j: int| 0 <= j < k ==> a[j] == b[j],
        k < a.len() && k < b.len() ==> a[k] != b[k],
    ensures
        first_difference(a, b) == k,
{
    lemma_first_difference(a, b);
    let d = first_difference(a, b);
    if d < k {
        assert(a[d] == b[d]);
    }
    if k < d {
        assert(a[k] == b[k]);
    }
}

/// Sequences of one length are equal exactly when they never differ.
pub proof fn lemma_no_difference_is_equality(a: Seq<u8>, b: Seq<u8>)
    requires
        a.len() == b.len(),
    ensures
        first_difference(a, b) == a.len() <==> a == b,
{
    lemma_first_difference(a, b);
    if first_difference(a, b) == a.len() {
        assert(a =~= b);
    }
}

/// Finds the first position at which `a` and `b` differ.
pub fn first_mismatch(a: &[u8], b: &[u8]) -> (k: usize)
    ensures
        k == first_difference(a@, b@),
{
    let mut i: usize = 0;
    while i < a.len() && i < b.len() && a[i] == b[i]
        invariant
            i <= a.len(),
            i <= b.len(),
            first_difference(a@, b@) == difference_from(a@, b@, i as int),
        decreases a.len() - i,
    {
        i += 1;
    }
    i
}

} // verus!
