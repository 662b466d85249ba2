//! The point.

use vstd::prelude::*;
use glam::Vec2;
use crate::float::{NEG_ONE, ONE, ZERO};
use crate::vector::{components, neg_ones, ones, text, zeros, Components};

verus! {

/// A single point in the plane. Its view is the lanes of its coordinate.
#[derive(Clone, Copy)]
pub struct Point {
    coordinate: Vec2,
}

impl View for Point {
    type V = Components;

    closed spec fn view(&self) -> Components {
        components(self.coordinate)
    }
}

/// The text `Point { coordinate: [x, y] }`.
pub open spec fn point_text(coordinate: Components) -> Seq<char> {
    "Point { coordinate: "@ + coordinate.text() + " }"@
}

impl Point {
    /// The point at `coordinate`.
    pub fn new(coordinate: Vec2) -> (p: Self)
        ensures
            p@ == components(coordinate),
    {
        Self { coordinate }
    }

    /// Where the point lies.
    pub fn coordinate(&self) -> (v: Vec2)
        ensures
            components(v) == self@,
    {
        self.coordinate
    }

    /// Puts the point at `coordinate`.
    pub fn set_coordinate(&mut self, coordinate: Vec2)
        ensures
            final(self)@ == components(coordinate),
    {
        self.coordinate = coordinate;
    }

    /// The point `(0, 0)`.
    pub fn zero() -> (p: Self)
        ensures
            p@ == Components::uniform(ZERO),
    {
        Self::new(zeros())
    }

    /// The point `(1, 1)`.
    pub fn one() -> (p: Self)
        ensures
            p@ == Components::uniform(ONE),
    {
        Self::new(ones())
    }

    /// The point `(-1, -1)`.
    pub fn neg_one() -> (p: Self)
        ensures
            p@ == Components::uniform(NEG_ONE),
    {
        Self::new(neg_ones())
    }

    /// The point as text.
    pub fn to_string(&self) -> (r: String)
        ensures
            r@ == point_text(self@),
    {
        let mut out = String::from_str("Point { coordinate: ");
        out.append(text(self.coordinate).as_str());
        out.append(" }");
        out
    }
}

impl Default for Point {
    /// The point `(0, 0)`.
    fn default() -> (p: Self)
        ensures
            p@ == Components::uniform(ZERO),
    {
        Self { coordinate: zeros() }
    }
}

} // verus!
