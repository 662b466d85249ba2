//! The triangle.

use vstd::prelude::*;
use glam::Vec2;
use crate::float::{ONE, ZERO};
use crate::scalar::{vec2, Scalar};
use crate::vector::{components, ones, text, zeros, Components};

verus! {

/// Three points in the plane. Nothing is asked of them: they may lie on one line, or
/// coincide.
#[derive(Clone, Copy)]
pub struct Triangle {
    coordinate1: Vec2,
    coordinate2: Vec2,
    coordinate3: Vec2,
}

/// The three corners of a triangle as bit patterns.
pub struct Vertices {
    pub coordinate1: Components,
    pub coordinate2: Components,
    pub coordinate3: Components,
}

impl Vertices {
    /// The text `Triangle { coordinate1: [x, y], coordinate2: [x, y], coordinate3: [x, y] }`.
    pub open spec fn text(self) -> Seq<char> {
        "Triangle { coordinate1: "@ + self.coordinate1.text() + ", coordinate2: "@
            + self.coordinate2.text() + ", coordinate3: "@ + self.coordinate3.text() + " }"@
    }
}

impl View for Triangle {
    type V = Vertices;

    closed spec fn view(&self) -> Vertices {
        Vertices {
            coordinate1: components(self.coordinate1),
            coordinate2: components(self.coordinate2),
            coordinate3: components(self.coordinate3),
        }
    }
}

impl Triangle {
    /// The triangle with the three corners given.
    pub fn new(coordinate1: Vec2, coordinate2: Vec2, coordinate3: Vec2) -> (t: Self)
        ensures
            t@ == (Vertices {
                coordinate1: components(coordinate1),
                coordinate2: components(coordinate2),
                coordinate3: components(coordinate3),
            }),
    {
        Self { coordinate1, coordinate2, coordinate3 }
    }

    /// The first corner.
    pub fn coordinate1(&self) -> (v: Vec2)
        ensures
            components(v) == self@.coordinate1,
    {
        self.coordinate1
    }

    /// The second corner.
    pub fn coordinate2(&self) -> (v: Vec2)
        ensures
            components(v) == self@.coordinate2,
    {
        self.coordinate2
    }

    /// The third corner.
    pub fn coordinate3(&self) -> (v: Vec2)
        ensures
            components(v) == self@.coordinate3,
    {
        self.coordinate3
    }

    /// Replaces the first corner; the other two stay.
    pub fn set_coordinate1(&mut self, coordinate1: Vec2)
        ensures
            final(self)@ == (Vertices { coordinate1: components(coordinate1), ..old(self)@ }),
    {
        self.coordinate1 = coordinate1;
    }

    /// Replaces the second corner; the other two stay.
    pub fn set_coordinate2(&mut self, coordinate2: Vec2)
        ensures
            final(self)@ == (Vertices { coordinate2: components(coordinate2), ..old(self)@ }),
    {
        self.coordinate2 = coordinate2;
    }

    /// Replaces the third corner; the other two stay.
    pub fn set_coordinate3(&mut self, coordinate3: Vec2)
        ensures
            final(self)@ == (Vertices { coordinate3: components(coordinate3), ..old(self)@ }),
    {
        self.coordinate3 = coordinate3;
    }

    /// The triangle as text.
    pub fn to_string(&self) -> (r: String)
        ensures
            r@ == self@.text(),
    {
        let mut out = String::from_str("Triangle { coordinate1: ");
        out.append(text(self.coordinate1).as_str());
        out.append(", coordinate2: ");
        out.append(text(self.coordinate2).as_str());
        out.append(", coordinate3: ");
        out.append(text(self.coordinate3).as_str());
        out.append(" }");
        out
    }
}

impl Default for Triangle {
    /// The triangle `(1, 1)`, `(0, 0)`, `(1, 0)`.
    fn default() -> (t: Self)
        ensures
            t@ == (Vertices {
                coordinate1: Components::uniform(ONE),
                coordinate2: Components::uniform(ZERO),
                coordinate3: Components { x: ONE, y: ZERO },
            }),
    {
        Self {
            coordinate1: ones(),
            coordinate2: zeros(),
            coordinate3: vec2(Scalar::one(), Scalar::zero()),
        }
    }
}

} // verus!
