use vstd::prelude::*;
use vstd::std_specs::cmp::{PartialOrdIs, PartialOrdSpec};

verus! {

/// `x` limited to the closed range from `min` to `max`: `min` when `x` lies
/// below it, `max` when `x` lies above it, and `x` itself otherwise.
pub fn clamp<T>(x: T, min: T, max: T) -> (r: T)
    where
        T: PartialEq + PartialOrd,
    ensures
        T::obeys_partial_cmp_spec() ==> {
            if x.is_lt(&min) {
                r == min
            } else if x.is_gt(&max) {
                r == max
            } else {
                r == x
            }
        },
{
    if x < min {
        min
    } else if x > max {
        max
    } else {
        x
    }
}

} // verus!
