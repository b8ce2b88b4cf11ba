//! The order of byte sequences.

use crate::bytes::first_difference;
use crate::bytes::lemma_first_difference;
use crate::bytes::lemma_first_difference_unique;
use crate::bytes::lemma_no_difference_is_equality;
use std::cmp::Ordering;
use vstd::prelude::*;

verus! {

/// The lexicographic order of `a` and `b`: the bytes at their first
/// difference decide; where one is a prefix of the other, the shorter comes
/// first.
pub open spec fn lex_order(a: Seq<u8>, b: Seq<u8>) -> Ordering {
    let k = first_difference(a, b);
    if k < a.len() && k < b.len() {
        if a[k] < b[k] {
            Ordering::Less
        } else {
            Ordering::Greater
        }
    } else if a.len() < b.len() {
        Ordering::Less
    } else if a.len() > b.len() {
        Ordering::Greater
    } else {
        Ordering::Equal
    }
}

/// Two sequences compare equal exactly when they are the same sequence.
pub proof fn lemma_order_equal(a: Seq<u8>, b: Seq<u8>)
    ensures
        lex_order(a, b) == Ordering::Equal <==> a == b,
{
    lemma_first_difference(a, b);
    if a.len() == b.len() {
        lemma_no_difference_is_equality(a, b);
    }
}

/// Swapping the two sequences reverses the order.
pub proof fn lemma_order_antisymmetric(a: Seq<u8>, b: Seq<u8>)
    ensures
        lex_order(a, b) == Ordering::Less <==> lex_order(b, a) == Ordering::Greater,
        lex_order(a, b) == Ordering::Equal <==> lex_order(b, a) == Ordering::Equal,
{
    lemma_first_difference(a, b);
    lemma_first_difference(b, a);
    let k = first_difference(a, b);
    let m = first_difference(b, a);
    if k < m {
        assert(b[k] == a[k]);
    }
    if m < k {
        assert(a[m] == b[m]);
    }
}

/// What comes before a sequence comes before all that this sequence comes
/// before.
pub proof fn lemma_order_transitive(a: Seq<u8>, b: Seq<u8>, c: Seq<u8>)
    requires
        lex_order(a, b) == Ordering::Less,
        lex_order(b, c) == Ordering::Less,
    ensures
        lex_order(a, c) == Ordering::Less,
{
    lemma_first_difference(a, b);
    lemma_first_difference(b, c);
    let k1 = first_difference(a, b);
    let k2 = first_difference(b, c);
    let k = if k1 <= k2 {
        k1
    } else {
        k2
    };
    assert forall|j: int| 0 <= j < k implies a[j] == c[j] by {
        assert(a[j] == b[j]);
        assert(b[j] == c[j]);
    }
    if k1 < k2 {
        assert(b[k1] == c[k1]);
    }
    if k2 < k1 {
        assert(a[k2] == b[k2]);
    }
    lemma_first_difference_unique(a, c, k);
}

} // verus!
