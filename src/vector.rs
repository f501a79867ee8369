use std::ops::{Add, Sub};
use vstd::prelude::*;
use vstd::std_specs::cmp::{PartialOrdIs, PartialOrdSpec};

verus! {

/// The operations shared by vectors of any dimension and scalar type.
///
/// `max` and `min` pick one of two vectors by the type's own ordering; the
/// other methods are the linear-algebra operations that each vector type
/// supplies for its scalar.
pub trait Vector: Add + Sub + PartialEq + PartialOrd + Sized {
    type Scalar;

    fn zero() -> Self;

    fn magnitude(&self) -> Self::Scalar;

    fn normalized(self) -> Self;

    fn normalize(&mut self);

    fn sqr_magnitude(&self) -> Self::Scalar;

    fn angle(&self, other: &Self) -> Self::Scalar;

    fn clamp_magnitude(self, max_len: Self::Scalar) -> Self;

    fn dot(&self, other: &Self) -> Self::Scalar;

    fn scale(self, other: Self) -> Self;

    fn lerp(self, other: Self, t: Self::Scalar) -> Self;

    fn lerp_unclamped(self, other: Self, t: Self::Scalar) -> Self;

    /// `self` when it orders at or above `other`, else `other`.
    fn max(self, other: Self) -> (r: Self)
        ensures
            Self::obeys_partial_cmp_spec() ==> r == (if self.is_ge(&other) {
                self
            } else {
                other
            }),
    {
        if self >= other {
            self
        } else {
            other
        }
    }

    /// `self` when it orders at or below `other`, else `other`.
    fn min(self, other: Self) -> (r: Self)
        ensures
            Self::obeys_partial_cmp_spec() ==> r == (if self.is_le(&other) {
                self
            } else {
                other
            }),
    {
        if self <= other {
            self
        } else {
            other
        }
    }

    fn reflect(self, normal: Self) -> Self;
}

/// One of the three coordinate axes of a 3-vector.
#[derive(Clone, Copy, Debug, PartialEq, Eq, Structural)]
pub enum Axis {
    X,
    Y,
    Z,
}

/// The axis that `name` spells: `"x"`, `"y"` or `"z"`, lower case.
pub open spec fn spec_axis_named(name: Seq<char>) -> Option<Axis> {
    if name == seq!['x'] {
        Some(Axis::X)
    } else if name == seq!['y'] {
        Some(Axis::Y)
    } else if name == seq!['z'] {
        Some(Axis::Z)
    } else {
        None
    }
}

/// The axis named by `name`, or `None` when it names no axis.
pub fn axis_named(name: &str) -> (r: Option<Axis>)
    ensures
        r == spec_axis_named(name@),
{
    if name.unicode_len() != 1 {
        return None;
    }
    let c = name.get_char(0);
    proof {
        assert(name@ =~= seq![c]);
    }
    if c == 'x' {
        Some(Axis::X)
    } else if c == 'y' {
        Some(Axis::Y)
    } else if c == 'z' {
        Some(Axis::Z)
    } else {
        assert(name@ != seq!['x']);
        assert(name@ != seq!['y']);
        None
    }
}

} // verus!
