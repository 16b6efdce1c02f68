//! Sequence similarity by longest common subsequence.
//!
//! The crate computes the length of the longest common subsequence (LCS)
//! of two sequences of equality-comparable elements, and derives from it
//! an insertion/deletion edit distance: `max(len1, len2) - lcs_length`.

pub mod laws;
pub mod lcs;
pub mod subsequence;

pub use lcs::distance;
pub use lcs::lcs_len;
pub use lcs::lcs_solve;
pub use lcs::spec_distance;
