//! Addition of 32-bit signed integers.
//!
//! The one operation of this crate, [`add`], is total: it accepts every pair
//! of `i32` values and never panics. Where the mathematical sum fits in an
//! `i32` the result is that sum; where it does not, the result wraps around
//! modulo 2^32, as two's-complement hardware does.
use vstd::prelude::*;

pub mod wrapping;

use crate::wrapping::{representable, wrapped_sum};

verus! {

/// Adds `left` and `right`.
///
/// The result is the one `i32` that differs from the mathematical sum by a
/// multiple of 2^32. In particular it is the mathematical sum itself whenever
/// that sum lies between `i32::MIN` and `i32::MAX`; past either end it wraps,
/// so that `i32::MAX` plus one is `i32::MIN`.
pub fn add(left: i32, right: i32) -> (sum: i32)
    ensures
        sum == wrapped_sum(left, right),
        representable(left + right) ==> sum == left + right,
{
    left.wrapping_add(right)
}

} // verus!
