//! The ray.

use vstd::prelude::*;
use glam::Vec2;
use crate::float::{NEG_ONE, ONE, ZERO};
use crate::scalar::{vec2, Scalar};
use crate::vector::{components, difference, ones, sum, text, unit, zeros, Components};

verus! {

/// A half-line that leaves `origin` in `direction`.
///
/// Whatever direction a constructor or a setter is given, it stores what
/// `normalize_or_zero` makes of it: a vector of length one, or the zero vector where the
/// given one is zero, too short to be scaled, or not finite. The four named rays hold an
/// axis direction, which has length one as it stands.
#[derive(Clone, Copy)]
pub struct Ray {
    origin: Vec2,
    direction: Vec2,
}

/// Origin and direction of a ray as bit patterns.
pub struct Heading {
    pub origin: Components,
    pub direction: Components,
}

impl Heading {
    /// The point one step along the ray: `direction + origin`.
    pub open spec fn offset(self) -> Components {
        self.direction.plus(self.origin)
    }

    /// The origin replaced. The direction stays, so the ray is moved, not turned.
    pub open spec fn moved_to(self, origin: Components) -> Heading {
        Heading { origin, direction: self.direction }
    }

    /// Turned to `direction`, brought to length one.
    pub open spec fn turned(self, direction: Components) -> Heading {
        Heading { origin: self.origin, direction: unit(direction) }
    }

    /// Turned towards the point `offset`: the direction becomes `offset - origin`, brought
    /// to length one.
    pub open spec fn aimed_at(self, offset: Components) -> Heading {
        self.turned(offset.minus(self.origin))
    }

    /// The text `Ray { origin: [x, y], direction: [x, y] }`.
    pub open spec fn text(self) -> Seq<char> {
        "Ray { origin: "@ + self.origin.text() + ", direction: "@ + self.direction.text()
            + " }"@
    }

    /// Aiming a ray at a point and asking for its offset does not give the point back. It
    /// gives the point one step from the origin towards it,
    /// `unit(offset - origin) + origin`; the origin is the one the ray had.
    pub proof fn law_offset_after_aiming(self, offset: Components)
        ensures
            self.aimed_at(offset).origin == self.origin,
            self.aimed_at(offset).offset() == unit(offset.minus(self.origin)).plus(self.origin),
    {
    }

    /// The order of moving and aiming matters: a ray aimed first and moved afterwards keeps
    /// the direction it took from the old origin, and one moved first aims from the new
    /// origin.
    pub proof fn law_aiming_reads_the_origin(self, origin: Components, offset: Components)
        ensures
            self.aimed_at(offset).moved_to(origin).direction == unit(offset.minus(self.origin)),
            self.moved_to(origin).aimed_at(offset).direction == unit(offset.minus(origin)),
    {
    }

    /// Turning a ray stores the given direction brought to length one and leaves the
    /// origin alone, whatever direction the ray had before.
    pub proof fn law_turning_forgets_the_old_direction(self, other: Heading, direction: Components)
        ensures
            self.turned(direction).origin == self.origin,
            self.turned(direction).direction == unit(direction),
            self.origin == other.origin ==> self.turned(direction) == other.turned(direction),
    {
    }
}

impl View for Ray {
    type V = Heading;

    closed spec fn view(&self) -> Heading {
        Heading { origin: components(self.origin), direction: components(self.direction) }
    }
}

impl Ray {
    /// The ray that leaves `origin` towards the point `offset`. Its direction points along
    /// `offset - origin`; where that is zero, or not finite, the direction is zero.
    pub fn new_offset(origin: Vec2, offset: Vec2) -> (r: Self)
        ensures
            r@ == (Heading {
                origin: components(origin),
                direction: unit(components(offset).minus(components(origin))),
            }),
            r@.direction.is_direction_of(components(offset).minus(components(origin))),
    {
        Self { origin, direction: difference(offset, origin).normalize_or_zero() }
    }

    /// The ray that leaves `origin` in `direction`, brought to length one. A direction that
    /// is zero, or not finite, gives the zero direction.
    pub fn new_direction(origin: Vec2, direction: Vec2) -> (r: Self)
        ensures
            r@ == (Heading {
                origin: components(origin),
                direction: unit(components(direction)),
            }),
            r@.direction.is_direction_of(components(direction)),
    {
        Self { origin, direction: direction.normalize_or_zero() }
    }

    /// Where the ray starts.
    pub fn origin(&self) -> (v: Vec2)
        ensures
            components(v) == self@.origin,
    {
        self.origin
    }

    /// The point one step along the ray: `direction + origin`. It is the point that the
    /// ray was aimed at only where that point lay at distance one.
    pub fn offset(&self) -> (v: Vec2)
        ensures
            components(v) == self@.offset(),
    {
        sum(self.direction, self.origin)
    }

    /// The direction as stored.
    pub fn direction(&self) -> (v: Vec2)
        ensures
            components(v) == self@.direction,
    {
        self.direction
    }

    /// Replaces the origin. The direction stays, so a later `set_offset` aims from the
    /// new origin.
    pub fn set_origin(&mut self, origin: Vec2)
        ensures
            final(self)@ == old(self)@.moved_to(components(origin)),
    {
        self.origin = origin;
    }

    /// Turns the ray towards the point `offset`, seen from the origin it has now: the new
    /// direction points along `offset - origin`. Where that is zero, or not finite, the
    /// direction becomes zero.
    pub fn set_offset(&mut self, offset: Vec2)
        ensures
            final(self)@ == old(self)@.aimed_at(components(offset)),
            final(self)@.direction.is_direction_of(
                components(offset).minus(old(self)@.origin),
            ),
    {
        self.direction = difference(offset, self.origin).normalize_or_zero();
    }

    /// Turns the ray to `direction`, brought to length one. A direction that is zero, or
    /// not finite, gives the zero direction.
    pub fn set_direction(&mut self, direction: Vec2)
        ensures
            final(self)@ == old(self)@.turned(components(direction)),
            final(self)@.direction.is_direction_of(components(direction)),
    {
        self.direction = direction.normalize_or_zero();
    }

    /// The ray from `(0, 0)` in direction `(0, 1)`.
    pub fn up() -> (r: Self)
        ensures
            r@ == (Heading {
                origin: Components::uniform(ZERO),
                direction: Components { x: ZERO, y: ONE },
            }),
    {
        Self { origin: zeros(), direction: vec2(Scalar::zero(), Scalar::one()) }
    }

    /// The ray from `(0, 0)` in direction `(1, 0)`.
    pub fn right() -> (r: Self)
        ensures
            r@ == (Heading {
                origin: Components::uniform(ZERO),
                direction: Components { x: ONE, y: ZERO },
            }),
    {
        Self { origin: zeros(), direction: vec2(Scalar::one(), Scalar::zero()) }
    }

    /// The ray from `(0, 0)` in direction `(0, -1)`.
    pub fn down() -> (r: Self)
        ensures
            r@ == (Heading {
                origin: Components::uniform(ZERO),
                direction: Components { x: ZERO, y: NEG_ONE },
            }),
    {
        Self { origin: zeros(), direction: vec2(Scalar::zero(), Scalar::neg_one()) }
    }

    /// The ray from `(0, 0)` in direction `(-1, 0)`.
    pub fn left() -> (r: Self)
        ensures
            r@ == (Heading {
                origin: Components::uniform(ZERO),
                direction: Components { x: NEG_ONE, y: ZERO },
            }),
    {
        Self { origin: zeros(), direction: vec2(Scalar::neg_one(), Scalar::zero()) }
    }

    /// The ray as text.
    pub fn to_string(&self) -> (r: String)
        ensures
            r@ == self@.text(),
    {
        let mut out = String::from_str("Ray { origin: ");
        out.append(text(self.origin).as_str());
        out.append(", direction: ");
        out.append(text(self.direction).as_str());
        out.append(" }");
        out
    }
}

impl Default for Ray {
    /// The ray from `(0, 0)` towards `(1, 1)`.
    fn default() -> (r: Self)
        ensures
            r@ == (Heading {
                origin: Components::uniform(ZERO),
                direction: unit(
                    Components::uniform(ONE).minus(Components::uniform(ZERO)),
                ),
            }),
    {
        Self::new_offset(zeros(), ones())
    }
}

} // verus!
