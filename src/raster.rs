//! Rules for turning lattice cells into lit device samples.

use vstd::prelude::*;

verus! {

/// The fewest sample points per side of a supersampled cell.
pub const MIN_SAMPLES: u64 = 10;

/// The most sample points per side of a supersampled cell.
pub const MAX_SAMPLES: u64 = 50;

/// Three sample steps per device sample spanned, rounded down and clamped.
pub open spec fn samples_for(dots_num: int, dots_den: int) -> int {
    let s = (3 * dots_num) / dots_den;
    if s < MIN_SAMPLES {
        MIN_SAMPLES as int
    } else if s > MAX_SAMPLES {
        MAX_SAMPLES as int
    } else {
        s
    }
}

/// How many sample steps to take along each side of one cell when it spans
/// `dots_num / dots_den` device samples: three per sample spanned, rounded
/// down, and kept between `MIN_SAMPLES` and `MAX_SAMPLES`.
pub fn samples_per_side(dots_num: u64, dots_den: u64) -> (r: u64)
    requires
        dots_den > 0,
    ensures
        r == samples_for(dots_num as int, dots_den as int),
{
    let scaled = (3 * (dots_num as u128)) / (dots_den as u128);
    if scaled < MIN_SAMPLES as u128 {
        MIN_SAMPLES
    } else if scaled > MAX_SAMPLES as u128 {
        MAX_SAMPLES
    } else {
        scaled as u64
    }
}

} // verus!
