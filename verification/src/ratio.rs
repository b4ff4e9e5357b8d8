//! Exact physical values.

use vstd::prelude::*;

verus! {

/// A physical value as an exact fraction, `numerator / denominator`, in the unit
/// that the function returning it names. The denominator is never zero.
///
/// The board's readings are integers, and the factors that turn them into
/// volts, amperes, degrees and percent are fractions; keeping both apart loses
/// nothing. Divide the two as floating-point numbers to get the usual decimal
/// value.
#[derive(Debug, Clone, Copy, PartialEq, Eq)]
pub struct Ratio {
    pub numerator: i64,
    pub denominator: u64,
}

} // verus!
