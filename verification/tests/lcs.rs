use levenshtein::distance;
use levenshtein::lcs_solve;

#[test]
fn test_lcs_solve() {
    let s1 = "lewenstein";
    let s2 = "levenshtein";

    assert_eq!(lcs_solve(s1.as_bytes(), s2.as_bytes()), 9);
}

#[test]
fn test_distance() {
    let s1 = "lewenstein";
    let s2 = "levenshtein";

    assert_eq!(distance(s1.as_bytes(), s2.as_bytes()), 2);
}

#[test]
fn reflexive_same_sequence() {
    let s = "levenshtein".as_bytes();
    assert_eq!(lcs_solve(s, s), s.len());
    assert_eq!(distance(s, s), 0);
}

#[test]
fn symmetric_swapped_arguments() {
    let a = "lewenstein".as_bytes();
    let b = "levenshtein".as_bytes();
    assert_eq!(lcs_solve(a, b), lcs_solve(b, a));
    assert_eq!(distance(a, b), distance(b, a));
}

#[test]
fn bounds_hold_on_sample() {
    let a = "flaw".as_bytes();
    let b = "lawn".as_bytes();
    let lcs = lcs_solve(a, b);
    let d = distance(a, b);
    assert!(lcs <= a.len().min(b.len()));
    assert!(d <= a.len().max(b.len()));
    assert_eq!(lcs, 3);
    assert_eq!(d, 1);
}

#[test]
fn empty_first_sequence() {
    let x = "abc".as_bytes();
    let e: &[u8] = &[];
    assert_eq!(lcs_solve(e, x), 0);
    assert_eq!(distance(e, x), x.len());
}

#[test]
fn empty_second_sequence() {
    let x = "abc".as_bytes();
    let e: &[u8] = &[];
    assert_eq!(lcs_solve(x, e), 0);
    assert_eq!(distance(x, e), x.len());
}

#[test]
fn both_empty() {
    let e: &[u8] = &[];
    assert_eq!(lcs_solve(e, e), 0);
    assert_eq!(distance(e, e), 0);
}

#[test]
fn disjoint_sequences() {
    let a = "abc".as_bytes();
    let b = "xyzw".as_bytes();
    assert_eq!(lcs_solve(a, b), 0);
    assert_eq!(distance(a, b), 4);
}

#[test]
fn disjoint_float_sequences() {
    let a: [f64; 2] = [1.0, 2.0];
    let b: [f64; 3] = [3.0, 4.0, 5.0];
    assert_eq!(lcs_solve(&a, &b), 0);
    assert_eq!(distance(&a, &b), 3);
}

#[test]
fn repeated_calls_agree() {
    let a = "kitten".as_bytes();
    let b = "sitting".as_bytes();
    assert_eq!(distance(a, b), distance(a, b));
    assert_eq!(distance(a, b), 3);
}

#[test]
fn duplicate_elements() {
    let a = "aab".as_bytes();
    let b = "ab".as_bytes();
    assert_eq!(lcs_solve(a, b), 2);
    assert_eq!(distance(a, b), 1);
}

#[test]
fn single_elements() {
    assert_eq!(lcs_solve(&[7u8], &[7u8]), 1);
    assert_eq!(distance(&[7u8], &[7u8]), 0);
    assert_eq!(lcs_solve(&[7u8], &[8u8]), 0);
    assert_eq!(distance(&[7u8], &[8u8]), 1);
}

#[test]
fn generic_integer_elements() {
    let a: [u32; 4] = [1, 2, 3, 4];
    let b: [u32; 5] = [2, 4, 6, 8, 10];
    assert_eq!(lcs_solve(&a, &b), 2);
    assert_eq!(distance(&a, &b), 3);
}
