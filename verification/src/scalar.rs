//! One single-precision number.

use vstd::prelude::*;
use glam::Vec2;
use crate::float::{
    decimal, float_difference, float_product, float_sum, HALF, NEG_ONE, ONE, TWO, ZERO,
};
use crate::vector::{
    components, difference, halves, joined, lane_text, neg_ones, ones, scaled, spread_x,
    spread_y, sum, twos, zeros, Components,
};

verus! {

/// A single-precision number.
///
/// It rides in a `glam` vector that holds it in both lanes, so that all arithmetic on it is
/// `glam`'s. Its view is its bit pattern.
#[derive(Clone, Copy)]
pub struct Scalar {
    carrier: Vec2,
}

impl View for Scalar {
    type V = u32;

    closed spec fn view(&self) -> u32 {
        components(self.carrier).x
    }
}

impl Scalar {
    #[verifier::type_invariant]
    spec fn both_lanes_agree(self) -> bool {
        components(self.carrier).is_uniform()
    }

    /// The first lane of `v`.
    pub fn x_of(v: Vec2) -> (s: Scalar)
        ensures
            s@ == components(v).x,
    {
        Scalar { carrier: spread_x(v) }
    }

    /// The second lane of `v`.
    pub fn y_of(v: Vec2) -> (s: Scalar)
        ensures
            s@ == components(v).y,
    {
        Scalar { carrier: spread_y(v) }
    }

    /// The vector that holds the number in both lanes.
    pub fn splat(self) -> (v: Vec2)
        ensures
            components(v) == Components::uniform(self@),
    {
        proof {
            use_type_invariant(&self);
        }
        self.carrier
    }

    /// Positive zero.
    pub fn zero() -> (s: Scalar)
        ensures
            s@ == ZERO,
    {
        Scalar { carrier: zeros() }
    }

    /// One half.
    pub fn half() -> (s: Scalar)
        ensures
            s@ == HALF,
    {
        Scalar { carrier: halves() }
    }

    /// One.
    pub fn one() -> (s: Scalar)
        ensures
            s@ == ONE,
    {
        Scalar { carrier: ones() }
    }

    /// Two.
    pub fn two() -> (s: Scalar)
        ensures
            s@ == TWO,
    {
        Scalar { carrier: twos() }
    }

    /// Minus one.
    pub fn neg_one() -> (s: Scalar)
        ensures
            s@ == NEG_ONE,
    {
        Scalar { carrier: neg_ones() }
    }

    /// `self + rhs`.
    pub fn plus(self, rhs: Scalar) -> (s: Scalar)
        ensures
            s@ == float_sum(self@, rhs@),
    {
        proof {
            use_type_invariant(&self);
            use_type_invariant(&rhs);
        }
        Scalar { carrier: sum(self.carrier, rhs.carrier) }
    }

    /// `self - rhs`.
    pub fn minus(self, rhs: Scalar) -> (s: Scalar)
        ensures
            s@ == float_difference(self@, rhs@),
    {
        proof {
            use_type_invariant(&self);
            use_type_invariant(&rhs);
        }
        Scalar { carrier: difference(self.carrier, rhs.carrier) }
    }

    /// `self * rhs`.
    pub fn times(self, rhs: Scalar) -> (s: Scalar)
        ensures
            s@ == float_product(self@, rhs@),
    {
        proof {
            use_type_invariant(&self);
        }
        Scalar { carrier: scaled(self.carrier, rhs.carrier) }
    }

    /// The number as the standard library writes it.
    pub fn to_string(&self) -> (r: String)
        ensures
            r@ == decimal(self@),
    {
        lane_text(self.carrier)
    }
}

/// The vector with first lane `x` and second lane `y`.
pub fn vec2(x: Scalar, y: Scalar) -> (v: Vec2)
    ensures
        components(v) == (Components { x: x@, y: y@ }),
{
    joined(x.carrier, y.carrier)
}

/// The vector `v` with both lanes multiplied by `k`.
pub fn scale(v: Vec2, k: Scalar) -> (r: Vec2)
    ensures
        components(r) == components(v).scaled(k@),
{
    scaled(v, k.carrier)
}

/// The larger lane of `v`, as the comparison `x > y` picks it.
pub fn larger_lane(v: Vec2) -> (s: Scalar)
    ensures
        s@ == components(v).larger_lane(),
{
    Scalar { carrier: crate::vector::larger_lane(v) }
}

} // verus!
