//! What makes `lcs_len` the *longest common subsequence* length: a
//! subsequence predicate, a witness of length `lcs_len`, and a proof that
//! no common subsequence is longer.

use vstd::prelude::*;

use crate::lcs::lcs_len;

verus! {

/// `x` appears in `a` in order, but not necessarily contiguously.
pub open spec fn is_subsequence<T>(x: Seq<T>, a: Seq<T>) -> bool
    decreases a.len(),
{
    if x.len() == 0 {
        true
    } else if a.len() == 0 {
        false
    } else if x.last() == a.last() {
        is_subsequence(x.drop_last(), a.drop_last()) || is_subsequence(x, a.drop_last())
    } else {
        is_subsequence(x, a.drop_last())
    }
}

/// `x` appears, in order, in both `a` and `b`.
pub open spec fn is_common_subsequence<T>(x: Seq<T>, a: Seq<T>, b: Seq<T>) -> bool {
    is_subsequence(x, a) && is_subsequence(x, b)
}

/// A subsequence of `a` without its last element is a subsequence of `a`.
proof fn lemma_subsequence_extend<T>(x: Seq<T>, a: Seq<T>)
    requires
        a.len() >= 1,
        is_subsequence(x, a.drop_last()),
    ensures
        is_subsequence(x, a),
{
}

/// Dropping the last element of `a` lowers the LCS length by at most 1,
/// and never raises it.
proof fn lemma_lcs_drop_last<T>(a: Seq<T>, b: Seq<T>)
    requires
        a.len() >= 1,
    ensures
        lcs_len(a.drop_last(), b) <= lcs_len(a, b),
        lcs_len(a, b) <= lcs_len(a.drop_last(), b) + 1,
    decreases a.len() + b.len(),
{
    if b.len() == 0 {
    } else if a.last() == b.last() {
        crate::laws::lemma_lcs_symmetric(a.drop_last(), b.drop_last());
        crate::laws::lemma_lcs_symmetric(a.drop_last(), b);
        lemma_lcs_drop_last(b, a.drop_last());
    } else {
        lemma_lcs_drop_last(a, b.drop_last());
        crate::laws::lemma_lcs_symmetric(a.drop_last(), b.drop_last());
        crate::laws::lemma_lcs_symmetric(a.drop_last(), b);
        lemma_lcs_drop_last(b, a.drop_last());
    }
}

/// Some common subsequence of `a` and `b` has length `lcs_len(a, b)`:
/// the returned witness.
pub proof fn lemma_lcs_achievable<T>(a: Seq<T>, b: Seq<T>) -> (x: Seq<T>)
    ensures
        is_common_subsequence(x, a, b),
        x.len() == lcs_len(a, b),
    decreases a.len() + b.len(),
{
    if a.len() == 0 || b.len() == 0 {
        Seq::empty()
    } else if a.last() == b.last() {
        let x0 = lemma_lcs_achievable(a.drop_last(), b.drop_last());
        let x = x0.push(a.last());
        assert(x.drop_last() =~= x0);
        x
    } else {
        let xa = lemma_lcs_achievable(a.drop_last(), b);
        let xb = lemma_lcs_achievable(a, b.drop_last());
        if xa.len() >= xb.len() {
            lemma_subsequence_extend(xa, a);
            xa
        } else {
            lemma_subsequence_extend(xb, b);
            xb
        }
    }
}

/// No common subsequence of `a` and `b` is longer than `lcs_len(a, b)`.
pub proof fn lemma_lcs_maximal<T>(x: Seq<T>, a: Seq<T>, b: Seq<T>)
    requires
        is_common_subsequence(x, a, b),
    ensures
        x.len() <= lcs_len(a, b),
    decreases a.len() + b.len(),
{
    if x.len() == 0 {
    } else {
        if is_subsequence(x, a.drop_last()) {
            lemma_lcs_maximal(x, a.drop_last(), b);
            lemma_lcs_drop_last(a, b);
        } else if is_subsequence(x, b.drop_last()) {
            lemma_lcs_maximal(x, a, b.drop_last());
            crate::laws::lemma_lcs_symmetric(a, b);
            crate::laws::lemma_lcs_symmetric(a, b.drop_last());
            lemma_lcs_drop_last(b, a);
        } else {
            assert(x.last() == a.last() && is_subsequence(x.drop_last(), a.drop_last()));
            assert(x.last() == b.last() && is_subsequence(x.drop_last(), b.drop_last()));
            lemma_lcs_maximal(x.drop_last(), a.drop_last(), b.drop_last());
        }
    }
}

} // verus!
