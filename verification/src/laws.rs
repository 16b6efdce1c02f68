//! Properties of the LCS length and of the derived distance.

use vstd::prelude::*;

use crate::lcs::lcs_len;
use crate::lcs::longer_len;
use crate::lcs::spec_distance;

verus! {

/// The LCS length never exceeds either input's length, so the derived
/// distance lies between 0 and the longer input's length.
pub proof fn lemma_lcs_bounds<T>(a: Seq<T>, b: Seq<T>)
    ensures
        lcs_len(a, b) <= a.len(),
        lcs_len(a, b) <= b.len(),
        0 <= spec_distance(a, b),
        spec_distance(a, b) <= longer_len(a, b),
    decreases a.len() + b.len(),
{
    if a.len() == 0 || b.len() == 0 {
    } else if a.last() == b.last() {
        lemma_lcs_bounds(a.drop_last(), b.drop_last());
    } else {
        lemma_lcs_bounds(a.drop_last(), b);
        lemma_lcs_bounds(a, b.drop_last());
    }
}

/// A sequence's longest common subsequence with itself is the sequence
/// itself, so the distance from a sequence to itself is 0.
pub proof fn lemma_lcs_reflexive<T>(a: Seq<T>)
    ensures
        lcs_len(a, a) == a.len(),
        spec_distance(a, a) == 0,
    decreases a.len(),
{
    if a.len() > 0 {
        lemma_lcs_reflexive(a.drop_last());
    }
}

/// The LCS length and the derived distance do not depend on the order of
/// the two arguments.
pub proof fn lemma_lcs_symmetric<T>(a: Seq<T>, b: Seq<T>)
    ensures
        lcs_len(a, b) == lcs_len(b, a),
        spec_distance(a, b) == spec_distance(b, a),
    decreases a.len() + b.len(),
{
    if a.len() == 0 || b.len() == 0 {
    } else if a.last() == b.last() {
        lemma_lcs_symmetric(a.drop_last(), b.drop_last());
    } else {
        lemma_lcs_symmetric(a.drop_last(), b);
        lemma_lcs_symmetric(a, b.drop_last());
    }
}

/// Against an empty sequence nothing is common, and the distance is the
/// other sequence's whole length.
pub proof fn lemma_lcs_empty<T>(a: Seq<T>, b: Seq<T>)
    requires
        a.len() == 0,
    ensures
        lcs_len(a, b) == 0,
        spec_distance(a, b) == b.len(),
{
}

/// When no element of `a` equals any element of `b`, the LCS is empty and
/// the distance is the longer input's whole length.
pub proof fn lemma_lcs_disjoint<T>(a: Seq<T>, b: Seq<T>)
    requires
        forall|i: int, j: int| 0 <= i < a.len() && 0 <= j < b.len() ==> a[i] != b[j],
    ensures
        lcs_len(a, b) == 0,
        spec_distance(a, b) == longer_len(a, b),
    decreases a.len() + b.len(),
{
    if a.len() == 0 || b.len() == 0 {
    } else {
        assert(a.last() != b.last());
        lemma_lcs_disjoint(a.drop_last(), b);
        lemma_lcs_disjoint(a, b.drop_last());
    }
}

} // verus!
