//! The circle.

use vstd::prelude::*;
use glam::Vec2;
use crate::float::{decimal, float_product, HALF, ONE, TWO, ZERO};
use crate::scalar::Scalar;
use crate::vector::{components, text, zeros, Components};

verus! {

/// A circle round `center`. The radius may be negative; nothing rejects it.
#[derive(Clone, Copy)]
pub struct Circle {
    center: Vec2,
    radius: Scalar,
}

/// Center and radius of a circle as bit patterns.
pub struct Disc {
    pub center: Components,
    pub radius: u32,
}

impl Disc {
    /// `radius * 2`.
    pub open spec fn diameter(self) -> u32 {
        float_product(self.radius, TWO)
    }

    /// The radius replaced by `diameter * 0.5`.
    pub open spec fn with_diameter(self, diameter: u32) -> Disc {
        Disc { center: self.center, radius: float_product(diameter, HALF) }
    }

    /// The text `Circle { center: [x, y], radius: r }`.
    pub open spec fn text(self) -> Seq<char> {
        "Circle { center: "@ + self.center.text() + ", radius: "@ + decimal(self.radius)
            + " }"@
    }

    /// Setting the diameter leaves the center alone. The diameter then reads
    /// `(diameter * 0.5) * 2`, which is `diameter` itself exactly where halving and
    /// doubling comes back; for the smallest number above zero it does not.
    pub proof fn law_diameter_after_with_diameter(self, diameter: u32)
        ensures
            self.with_diameter(diameter).center == self.center,
            self.with_diameter(diameter).diameter() == float_product(
                float_product(diameter, HALF),
                TWO,
            ),
    {
    }
}

impl View for Circle {
    type V = Disc;

    closed spec fn view(&self) -> Disc {
        Disc { center: components(self.center), radius: self.radius@ }
    }
}

impl Circle {
    /// The circle round `center` with the given radius.
    pub fn new(center: Vec2, radius: Scalar) -> (c: Self)
        ensures
            c@ == (Disc { center: components(center), radius: radius@ }),
    {
        Self { center, radius }
    }

    /// The circle round `center` with radius `diameter * 0.5`.
    pub fn new_diameter(center: Vec2, diameter: Scalar) -> (c: Self)
        ensures
            c@ == (Disc {
                center: components(center),
                radius: float_product(diameter@, HALF),
            }),
    {
        Self::new(center, diameter.times(Scalar::half()))
    }

    /// The center.
    pub fn center(&self) -> (v: Vec2)
        ensures
            components(v) == self@.center,
    {
        self.center
    }

    /// The radius.
    pub fn radius(&self) -> (s: Scalar)
        ensures
            s@ == self@.radius,
    {
        self.radius
    }

    /// `radius * 2`.
    pub fn diameter(&self) -> (s: Scalar)
        ensures
            s@ == self@.diameter(),
    {
        self.radius.times(Scalar::two())
    }

    /// Replaces the center; the radius stays.
    pub fn set_center(&mut self, center: Vec2)
        ensures
            final(self)@ == (Disc { center: components(center), radius: old(self)@.radius }),
    {
        self.center = center;
    }

    /// Replaces the radius; the center stays.
    pub fn set_radius(&mut self, radius: Scalar)
        ensures
            final(self)@ == (Disc { center: old(self)@.center, radius: radius@ }),
    {
        self.radius = radius;
    }

    /// Sets the radius to `diameter * 0.5`; the center stays.
    pub fn set_diameter(&mut self, diameter: Scalar)
        ensures
            final(self)@ == old(self)@.with_diameter(diameter@),
    {
        self.radius = diameter.times(Scalar::half());
    }

    /// The circle as text.
    pub fn to_string(&self) -> (r: String)
        ensures
            r@ == self@.text(),
    {
        let mut out = String::from_str("Circle { center: ");
        out.append(text(self.center).as_str());
        out.append(", radius: ");
        out.append(self.radius.to_string().as_str());
        out.append(" }");
        out
    }
}

impl Default for Circle {
    /// The circle round `(0, 0)` with radius one.
    fn default() -> (c: Self)
        ensures
            c@ == (Disc { center: Components::uniform(ZERO), radius: ONE }),
    {
        Self { center: zeros(), radius: Scalar::one() }
    }
}

} // verus!
