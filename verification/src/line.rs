//! The line segment.

use vstd::prelude::*;
use glam::Vec2;
use crate::float::{exceeds, HALF, NEG_ONE, ONE, ZERO};
use crate::scalar::{larger_lane, scale, vec2, Scalar};
use crate::vector::{components, difference, ones, sum, text, unit, zeros, Components};

verus! {

/// A segment from `origin` to `end`. The two may coincide.
#[derive(Clone, Copy)]
pub struct Line {
    origin: Vec2,
    end: Vec2,
}

/// The two ends of a segment as bit patterns.
pub struct Endpoints {
    pub origin: Components,
    pub end: Components,
}

impl Endpoints {
    /// `(origin + end) * 0.5`, lane by lane.
    pub open spec fn center(self) -> Components {
        self.origin.plus(self.end).scaled(HALF)
    }

    /// `end - origin`, lane by lane. It is not brought to length one.
    pub open spec fn direction(self) -> Components {
        self.end.minus(self.origin)
    }

    /// The larger lane of the direction. This is not the Euclidean length.
    pub open spec fn length(self) -> u32 {
        self.direction().larger_lane()
    }

    /// The text `Line { origin: [x, y], end: [x, y] }`.
    pub open spec fn text(self) -> Seq<char> {
        "Line { origin: "@ + self.origin.text() + ", end: "@ + self.end.text() + " }"@
    }

    /// The length is one of the two lanes of the direction, and neither lane exceeds it.
    /// Where the lanes are equal, or one of them is a NaN, it is the second lane.
    pub proof fn law_length_is_the_larger_lane(self)
        ensures
            self.length() == self.direction().x || self.length() == self.direction().y,
            !exceeds(self.direction().x, self.length()),
            !exceeds(self.direction().y, self.length()),
            !exceeds(self.direction().x, self.direction().y) ==> self.length()
                == self.direction().y,
    {
    }
}

/// Where a segment ends that leaves `origin` towards `direction` and is `distance` long:
/// `origin + unit(direction) * distance`.
pub open spec fn end_towards(origin: Components, direction: Components, distance: u32)
    -> Components {
    origin.plus(unit(direction).scaled(distance))
}

impl View for Line {
    type V = Endpoints;

    closed spec fn view(&self) -> Endpoints {
        Endpoints { origin: components(self.origin), end: components(self.end) }
    }
}

impl Line {
    /// The segment from `origin` to `end`.
    pub fn new(origin: Vec2, end: Vec2) -> (l: Self)
        ensures
            l@ == (Endpoints { origin: components(origin), end: components(end) }),
    {
        Self { origin, end }
    }

    /// The segment that leaves `origin` towards `direction` and is `distance` long. The
    /// direction is first brought to length one. A direction that is zero, or not finite,
    /// counts as the zero vector: the end is then `origin + (0, 0) * distance`.
    pub fn new_direction(origin: Vec2, direction: Vec2, distance: Scalar) -> (l: Self)
        ensures
            l@ == (Endpoints {
                origin: components(origin),
                end: end_towards(components(origin), components(direction), distance@),
            }),
            components(direction).has_no_direction() ==> l@.end == components(origin).plus(
                Components::uniform(ZERO).scaled(distance@),
            ),
    {
        Self { origin, end: sum(origin, scale(direction.normalize_or_zero(), distance)) }
    }

    /// Where the segment starts.
    pub fn origin(&self) -> (v: Vec2)
        ensures
            components(v) == self@.origin,
    {
        self.origin
    }

    /// Where the segment ends.
    pub fn end(&self) -> (v: Vec2)
        ensures
            components(v) == self@.end,
    {
        self.end
    }

    /// Replaces the start; the end stays.
    pub fn set_origin(&mut self, origin: Vec2)
        ensures
            final(self)@ == (Endpoints { origin: components(origin), end: old(self)@.end }),
    {
        self.origin = origin;
    }

    /// Replaces the end; the start stays.
    pub fn set_end(&mut self, offset: Vec2)
        ensures
            final(self)@ == (Endpoints { origin: old(self)@.origin, end: components(offset) }),
    {
        self.end = offset;
    }

    /// The point halfway: `(origin + end) * 0.5`.
    pub fn center(&self) -> (v: Vec2)
        ensures
            components(v) == self@.center(),
    {
        scale(sum(self.origin, self.end), Scalar::half())
    }

    /// `end - origin`. It is not brought to length one.
    pub fn direction(&self) -> (v: Vec2)
        ensures
            components(v) == self@.direction(),
    {
        difference(self.end, self.origin)
    }

    /// The larger lane of the direction, picked by the comparison `x > y` with the sign
    /// each lane has. This is not the Euclidean length: for a segment that runs left and
    /// down it is negative.
    pub fn length(&self) -> (s: Scalar)
        ensures
            s@ == self@.length(),
    {
        larger_lane(self.direction())
    }

    /// The segment from `(0, 0)` to `(0, 1)`.
    pub fn up() -> (l: Self)
        ensures
            l@ == (Endpoints {
                origin: Components::uniform(ZERO),
                end: Components { x: ZERO, y: ONE },
            }),
    {
        Self { origin: zeros(), end: vec2(Scalar::zero(), Scalar::one()) }
    }

    /// The segment from `(0, 0)` to `(1, 0)`.
    pub fn right() -> (l: Self)
        ensures
            l@ == (Endpoints {
                origin: Components::uniform(ZERO),
                end: Components { x: ONE, y: ZERO },
            }),
    {
        Self { origin: zeros(), end: vec2(Scalar::one(), Scalar::zero()) }
    }

    /// The segment from `(0, 0)` to `(0, -1)`.
    pub fn down() -> (l: Self)
        ensures
            l@ == (Endpoints {
                origin: Components::uniform(ZERO),
                end: Components { x: ZERO, y: NEG_ONE },
            }),
    {
        Self { origin: zeros(), end: vec2(Scalar::zero(), Scalar::neg_one()) }
    }

    /// The segment from `(0, 0)` to `(-1, 0)`.
    pub fn left() -> (l: Self)
        ensures
            l@ == (Endpoints {
                origin: Components::uniform(ZERO),
                end: Components { x: NEG_ONE, y: ZERO },
            }),
    {
        Self { origin: zeros(), end: vec2(Scalar::neg_one(), Scalar::zero()) }
    }

    /// The segment as text.
    pub fn to_string(&self) -> (r: String)
        ensures
            r@ == self@.text(),
    {
        let mut out = String::from_str("Line { origin: ");
        out.append(text(self.origin).as_str());
        out.append(", end: ");
        out.append(text(self.end).as_str());
        out.append(" }");
        out
    }
}

impl Default for Line {
    /// The segment from `(0, 0)` to `(1, 1)`.
    fn default() -> (l: Self)
        ensures
            l@ == (Endpoints {
                origin: Components::uniform(ZERO),
                end: Components::uniform(ONE),
            }),
    {
        Self { origin: zeros(), end: ones() }
    }
}

} // verus!
