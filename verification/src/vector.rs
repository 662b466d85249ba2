//! The two-lane vector of `glam`, and what this crate takes on trust about it.
//!
//! Verus does not look inside a `glam::Vec2`. The crate speaks of one through
//! [`components`], the bit patterns of its two lanes, and calls `glam` for every piece of
//! arithmetic. Each function in this module that is marked `external_body`, and each
//! `assume_specification`, states what `glam`'s source shows of one of its functions; none
//! of these statements is proved.

use vstd::prelude::*;
use glam::Vec2;
use crate::float::{
    decimal, float_difference, float_product, float_sum, is_finite, is_positive_finite, is_zero,
    larger, HALF, NEG_ONE, ONE, TWO, ZERO,
};

verus! {

#[verifier::external_type_specification]
#[verifier::external_body]
pub struct ExVec2(Vec2);

/// The two lanes of a vector as bit patterns.
pub struct Components {
    pub x: u32,
    pub y: u32,
}

impl Components {
    /// Both lanes hold `p`.
    pub open spec fn uniform(p: u32) -> Components {
        Components { x: p, y: p }
    }

    /// Both lanes are the same.
    pub open spec fn is_uniform(self) -> bool {
        self.x == self.y
    }

    /// Both lanes are a zero of either sign.
    pub open spec fn is_zero(self) -> bool {
        is_zero(self.x) && is_zero(self.y)
    }

    /// Neither lane is an infinity or a NaN.
    pub open spec fn is_finite(self) -> bool {
        is_finite(self.x) && is_finite(self.y)
    }

    /// The vector points nowhere: it is zero, or one of its lanes is an infinity or a NaN.
    pub open spec fn has_no_direction(self) -> bool {
        self.is_zero() || !self.is_finite()
    }

    /// The lane-wise sum `self + rhs`.
    pub open spec fn plus(self, rhs: Components) -> Components {
        Components { x: float_sum(self.x, rhs.x), y: float_sum(self.y, rhs.y) }
    }

    /// The lane-wise difference `self - rhs`.
    pub open spec fn minus(self, rhs: Components) -> Components {
        Components { x: float_difference(self.x, rhs.x), y: float_difference(self.y, rhs.y) }
    }

    /// Both lanes multiplied by the number `k`.
    pub open spec fn scaled(self, k: u32) -> Components {
        Components { x: float_product(self.x, k), y: float_product(self.y, k) }
    }

    /// The larger lane, as the comparison `x > y` picks it.
    pub open spec fn larger_lane(self) -> u32 {
        larger(self.x, self.y)
    }

    /// `self` is `v` with both lanes multiplied by one number, which is above zero and
    /// not an infinity: the two point the same way.
    pub open spec fn points_along(self, v: Components) -> bool {
        exists|k: u32| is_positive_finite(k) && self == #[trigger] v.scaled(k)
    }

    /// What can be said of `self` as the direction of `v` brought to length one, short of
    /// its length: it is the zero vector or points along `v`, and it is the zero vector
    /// where `v` points nowhere.
    pub open spec fn is_direction_of(self, v: Components) -> bool {
        &&& self == Components::uniform(ZERO) || self.points_along(v)
        &&& v.has_no_direction() ==> self == Components::uniform(ZERO)
    }

    /// The text `[x, y]`, each lane written as the standard library writes a number.
    pub open spec fn text(self) -> Seq<char> {
        seq!['['] + decimal(self.x) + seq![',', ' '] + decimal(self.y) + seq![']']
    }
}

/// What the vector holds: the bit pattern of each lane, every NaN read as one pattern.
pub uninterp spec fn components(v: Vec2) -> Components;

/// What `glam`'s `normalize_or_zero` makes of a vector with the given lanes: the vector
/// scaled to length one where that is possible, and the zero vector where it is not.
pub uninterp spec fn unit(v: Components) -> Components;

/// `Vec2::normalize_or_zero`. It computes `1 / sqrt(x * x + y * y)` and, where that is
/// finite and above zero, multiplies both lanes by it; in every other case it returns
/// `Vec2::ZERO`. So the result depends on the lanes alone; it is `Vec2::ZERO` or the input
/// times one number that is finite and above zero; and it is `Vec2::ZERO` for an input
/// that is zero or that is not finite, as the documentation of `glam` says too. Nothing
/// is claimed here of the length of the result.
pub assume_specification[ Vec2::normalize_or_zero ](v: Vec2) -> (r: Vec2)
    ensures
        components(r) == unit(components(v)),
        components(r).is_direction_of(components(v)),
;

/// `Add` of two `Vec2`, written `a + b`, which adds lane by lane.
#[verifier::external_body]
pub(crate) fn sum(a: Vec2, b: Vec2) -> (r: Vec2)
    ensures
        components(r).x == float_sum(components(a).x, components(b).x),
        components(r).y == float_sum(components(a).y, components(b).y),
{
    a + b
}

/// `Sub` of two `Vec2`, written `a - b`, which subtracts lane by lane.
#[verifier::external_body]
pub(crate) fn difference(a: Vec2, b: Vec2) -> (r: Vec2)
    ensures
        components(r).x == float_difference(components(a).x, components(b).x),
        components(r).y == float_difference(components(a).y, components(b).y),
{
    a - b
}

/// `Mul` of a `Vec2` and a single number, written `v * k`, which multiplies each lane by
/// the number. The number is handed over as the first lane of `k`.
#[verifier::external_body]
pub(crate) fn scaled(v: Vec2, k: Vec2) -> (r: Vec2)
    ensures
        components(r).x == float_product(components(v).x, components(k).x),
        components(r).y == float_product(components(v).y, components(k).x),
{
    v * k.x
}

/// `Vec2::max_element`, which compares the lanes with `x > y` and returns `x` if that holds
/// and `y` if not; the number comes back in both lanes of a vector made by `Vec2::splat`.
#[verifier::external_body]
pub(crate) fn larger_lane(v: Vec2) -> (r: Vec2)
    ensures
        components(r) == Components::uniform(components(v).larger_lane()),
{
    Vec2::splat(v.max_element())
}

/// `Vec2::splat` of the first lane: a vector that holds it in both lanes.
#[verifier::external_body]
pub(crate) fn spread_x(v: Vec2) -> (r: Vec2)
    ensures
        components(r) == Components::uniform(components(v).x),
{
    Vec2::splat(v.x)
}

/// `Vec2::splat` of the second lane: a vector that holds it in both lanes.
#[verifier::external_body]
pub(crate) fn spread_y(v: Vec2) -> (r: Vec2)
    ensures
        components(r) == Components::uniform(components(v).y),
{
    Vec2::splat(v.y)
}

/// `Vec2::new` on the first lane of `x` and the first lane of `y`.
#[verifier::external_body]
pub(crate) fn joined(x: Vec2, y: Vec2) -> (r: Vec2)
    ensures
        components(r) == (Components { x: components(x).x, y: components(y).x }),
{
    Vec2::new(x.x, y.x)
}

/// `Vec2::ZERO`: positive zero in both lanes.
#[verifier::external_body]
pub(crate) fn zeros() -> (r: Vec2)
    ensures
        components(r) == Components::uniform(ZERO),
{
    Vec2::ZERO
}

/// `Vec2::ONE`: one in both lanes.
#[verifier::external_body]
pub(crate) fn ones() -> (r: Vec2)
    ensures
        components(r) == Components::uniform(ONE),
{
    Vec2::ONE
}

/// `Vec2::NEG_ONE`: minus one in both lanes.
#[verifier::external_body]
pub(crate) fn neg_ones() -> (r: Vec2)
    ensures
        components(r) == Components::uniform(NEG_ONE),
{
    Vec2::NEG_ONE
}

/// One half in both lanes. No constant of `glam` holds it; it is taken from
/// `Vec2::midpoint`, which returns `(self + rhs) * 0.5`, on `Vec2::ONE` and `Vec2::ZERO`.
#[verifier::external_body]
pub(crate) fn halves() -> (r: Vec2)
    ensures
        components(r) == Components::uniform(HALF),
{
    Vec2::ONE.midpoint(Vec2::ZERO)
}

/// Two in both lanes. No constant of `glam` holds it; it is `Vec2::ONE + Vec2::ONE`.
#[verifier::external_body]
pub(crate) fn twos() -> (r: Vec2)
    ensures
        components(r) == Components::uniform(TWO),
{
    Vec2::ONE + Vec2::ONE
}

/// The `Display` of `Vec2`, which writes `[x, y]` with each lane as the standard library
/// writes a number.
#[verifier::external_body]
pub(crate) fn text(v: Vec2) -> (r: String)
    ensures
        r@ == components(v).text(),
{
    format!("{}", v)
}

/// The `Display` of the standard library on the number in the first lane.
#[verifier::external_body]
pub(crate) fn lane_text(v: Vec2) -> (r: String)
    ensures
        r@ == decimal(components(v).x),
{
    format!("{}", v.x)
}

} // verus!
