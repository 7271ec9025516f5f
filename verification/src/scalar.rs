//! Fixed-point scalars. Angles and stiffnesses are whole numbers of steps,
//! [`UNIT`] steps to the radian and to full rigidity.

use vstd::prelude::*;

verus! {

/// Steps in one whole unit: one radian of angle, or the stiffness of a
/// maximally rigid joint.
pub const UNIT: i64 = 1_000_000_000;

/// The absolute value of `value`.
pub open spec fn magnitude(value: int) -> int {
    if value >= 0 {
        value
    } else {
        -value
    }
}

/// Whether `value` lies no further than `tolerance` from `target`.
pub open spec fn close_to(value: int, target: int, tolerance: int) -> bool {
    magnitude(value - target) <= tolerance
}

/// Whether `value` lies within `tolerance` of `target`, both ends included.
pub fn is_close_to(value: i64, target: i64, tolerance: i64) -> (close: bool)
    ensures
        close == close_to(value as int, target as int, tolerance as int),
{
    let difference: i128 = value as i128 - target as i128;
    let bound: i128 = tolerance as i128;
    if difference >= 0 {
        difference <= bound
    } else {
        -difference <= bound
    }
}

/// Whether the absolute value of `value` is greater than `threshold`.
pub fn magnitude_exceeds(value: i64, threshold: i64) -> (exceeds: bool)
    ensures
        exceeds == (magnitude(value as int) > threshold),
{
    let wide: i128 = value as i128;
    let bound: i128 = threshold as i128;
    if wide >= 0 {
        wide > bound
    } else {
        -wide > bound
    }
}

} // verus!
