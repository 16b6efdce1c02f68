//! Longest-common-subsequence solver and the distance derived from it.
//!
//! The solver runs the classic dynamic program in a single row of length
//! `len1`, tracking the diagonal predecessor explicitly, so it needs
//! O(len1) auxiliary space and O(len1 * len2) time.

use vstd::laws_eq::obeys_concrete_eq;
use vstd::prelude::*;
use vstd::slice::slice_index_get;

verus! {

/// Length of the longest common subsequence of `a` and `b`: the longest
/// sequence of elements that appears, in order but not necessarily
/// contiguously, in both `a` and `b`.
pub open spec fn lcs_len<T>(a: Seq<T>, b: Seq<T>) -> nat
    decreases a.len() + b.len(),
{
    if a.len() == 0 || b.len() == 0 {
        0
    } else if a.last() == b.last() {
        lcs_len(a.drop_last(), b.drop_last()) + 1
    } else {
        let skip_a = lcs_len(a.drop_last(), b);
        let skip_b = lcs_len(a, b.drop_last());
        if skip_a >= skip_b {
            skip_a
        } else {
            skip_b
        }
    }
}

/// The length of the longer of the two sequences.
pub open spec fn longer_len<T>(a: Seq<T>, b: Seq<T>) -> nat {
    if a.len() >= b.len() {
        a.len()
    } else {
        b.len()
    }
}

/// The edit distance derived from the LCS length: the number of
/// single-element insertions and deletions needed to transform `a` into
/// `b` when substitution is not a primitive operation.
pub open spec fn spec_distance<T>(a: Seq<T>, b: Seq<T>) -> int {
    longer_len(a, b) - lcs_len(a, b)
}

/// Computes the LCS length of `s1` and `s2` with a single dynamic-programming
/// row of length `s1.len()`.
///
/// The result is pinned down whenever `T`'s equality agrees with logical
/// equality (`obeys_concrete_eq`, true of the integer primitives among
/// others); for any other equality the result is still bounded by both
/// lengths and the call cannot panic.
#[verifier::loop_isolation(false)]
pub fn lcs_solve<T: PartialEq>(s1: &[T], s2: &[T]) -> (r: usize)
    ensures
        r <= s1@.len(),
        r <= s2@.len(),
        obeys_concrete_eq::<T>() ==> r == lcs_len(s1@, s2@),
{
    let n1 = s1.len();
    let n2 = s2.len();

    if n1 == 0 {
        return 0;
    }

    let mut row: Vec<usize> = Vec::new();
    while row.len() < n1
        invariant
            row.len() <= n1,
            forall|j: int| 0 <= j < row.len() ==> row[j] == 0,
        decreases n1 - row.len(),
    {
        row.push(0);
    }

    proof {
        assert forall|j: int| 0 <= j < n1 implies #[trigger] lcs_len(
            s1@.take(j + 1),
            s2@.take(0),
        ) == 0 by {
            assert(s2@.take(0).len() == 0);
        }
    }

    let mut i2: usize = 0;
    while i2 < n2
        invariant
            i2 <= n2,
            row.len() == n1,
            forall|j: int| 0 <= j < n1 ==> row[j] <= i2,
            forall|j: int| 0 <= j < n1 ==> row[j] <= j + 1,
            obeys_concrete_eq::<T>() ==> forall|j: int|
                0 <= j < n1 ==> row[j] == lcs_len(s1@.take(j + 1), s2@.take(i2 as int)),
        decreases n2 - i2,
    {
        let mut prev: usize = 0;
        let mut i1: usize = 0;
        while i1 < n1
            invariant
                i2 < n2,
                i1 <= n1,
                row.len() == n1,
                prev <= i2,
                prev <= i1,
                forall|j: int| 0 <= j < i1 ==> row[j] <= i2 + 1,
                forall|j: int| i1 <= j < n1 ==> row[j] <= i2,
                forall|j: int| 0 <= j < n1 ==> row[j] <= j + 1,
                obeys_concrete_eq::<T>() ==> {
                    &&& forall|j: int|
                        0 <= j < i1 ==> row[j] == lcs_len(s1@.take(j + 1), s2@.take(i2 + 1))
                    &&& forall|j: int|
                        i1 <= j < n1 ==> row[j] == lcs_len(s1@.take(j + 1), s2@.take(i2 as int))
                    &&& prev == lcs_len(s1@.take(i1 as int), s2@.take(i2 as int))
                },
            decreases n1 - i1,
        {
            let prev_new = row[i1];
            let x = slice_index_get(s1, i1);
            let y = slice_index_get(s2, i2);
            let matched = *x == *y;
            proof {
                if obeys_concrete_eq::<T>() {
                    reveal(vstd::laws_eq::obeys_concrete_eq);
                    assert(matched <==> s1@[i1 as int] == s2@[i2 as int]);
                }
            }
            if matched {
                row[i1] = prev + 1;
            } else if i1 > 0 {
                if row[i1] < row[i1 - 1] {
                    let carried = row[i1 - 1];
                    row[i1] = carried;
                }
            }
            proof {
                let a = s1@.take(i1 + 1);
                let b = s2@.take(i2 + 1);
                assert(a.drop_last() =~= s1@.take(i1 as int));
                assert(b.drop_last() =~= s2@.take(i2 as int));
                if obeys_concrete_eq::<T>() {
                    if s1@[i1 as int] == s2@[i2 as int] {
                        assert(lcs_len(a, b) == lcs_len(
                            s1@.take(i1 as int),
                            s2@.take(i2 as int),
                        ) + 1);
                    } else if i1 > 0 {
                        assert(lcs_len(a, b) == row[i1 as int]);
                    } else {
                        assert(lcs_len(a.drop_last(), b) == 0) by {
                            assert(a.drop_last().len() == 0);
                        }
                        assert(lcs_len(a, b) == lcs_len(a, s2@.take(i2 as int)));
                    }
                }
            }
            prev = prev_new;
            i1 = i1 + 1;
        }
        i2 = i2 + 1;
    }

    let r = row[n1 - 1];
    proof {
        assert(s1@.take(n1 as int) =~= s1@);
        assert(s2@.take(n2 as int) =~= s2@);
    }
    r
}

/// Computes the LCS-derived edit distance of `s1` and `s2`:
/// `max(len1, len2) - lcs_length`.
///
/// As with [`lcs_solve`], the result is pinned down whenever `T`'s equality
/// agrees with logical equality; it never exceeds the longer input's length.
pub fn distance<T: PartialEq>(s1: &[T], s2: &[T]) -> (r: usize)
    ensures
        r <= longer_len(s1@, s2@),
        obeys_concrete_eq::<T>() ==> r == spec_distance(s1@, s2@),
{
    let n1 = s1.len();
    let n2 = s2.len();
    let lcs = lcs_solve(s1, s2);
    let longer = if n1 >= n2 {
        n1
    } else {
        n2
    };
    longer - lcs
}

} // verus!
