//! The ways in which normalization can fail.

use vstd::prelude::*;

verus! {

/// Why a town field could not be normalized.
#[derive(Debug, Clone, Copy, PartialEq, Eq)]
pub enum NormalizeError {
    /// A string holds no run of full-width digits, or the run denotes a number
    /// beyond `usize::MAX`.
    MalformedNumber,
    /// A label of a numbered range holds no number that can be read.
    MalformedRange,
    /// The pattern engine refused a pattern, or reported a match without a
    /// group that the pattern always fills.
    Pattern,
}

} // verus!
