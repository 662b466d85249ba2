//! The axis-aligned rectangle, held as two corners.
//!
//! The setters fall into two families. One family writes a single corner, or a single lane
//! of a corner, and leaves everything else alone: the extent changes with it. The other
//! family moves the rectangle: it sets the `min` corner and carries `max` along by the same
//! step, so that the extent is kept as far as rounding allows.

use vstd::prelude::*;
use glam::Vec2;
use crate::float::{
    comes_back, decimal, float_difference, float_sum, keeps_distance, HALF, ONE, ZERO,
};
use crate::scalar::{scale, vec2, Scalar};
use crate::vector::{components, ones, sum, zeros, Components};

verus! {

/// A rectangle between the corners `min` and `max`.
///
/// Nothing orders the corners: `max` may lie left of or below `min`, and width and height
/// are then negative.
#[derive(Clone, Copy)]
pub struct Rectangle {
    min: Vec2,
    max: Vec2,
}

/// The two corners of a rectangle as bit patterns.
pub struct Corners {
    pub min: Components,
    pub max: Components,
}

impl Corners {
    /// `max.x - min.x`.
    pub open spec fn width(self) -> u32 {
        float_difference(self.max.x, self.min.x)
    }

    /// `max.y - min.y`.
    pub open spec fn height(self) -> u32 {
        float_difference(self.max.y, self.min.y)
    }

    /// Width and height as the lanes of a vector.
    pub open spec fn size(self) -> Components {
        Components { x: self.width(), y: self.height() }
    }

    /// `(min + max) * 0.5`, lane by lane.
    pub open spec fn center(self) -> Components {
        self.min.plus(self.max).scaled(HALF)
    }

    /// The `min` corner replaced.
    pub open spec fn with_min(self, min: Components) -> Corners {
        Corners { min, max: self.max }
    }

    /// The `max` corner replaced.
    pub open spec fn with_max(self, max: Components) -> Corners {
        Corners { min: self.min, max }
    }

    /// The lane `min.x` replaced.
    pub open spec fn with_min_x(self, x: u32) -> Corners {
        Corners { min: Components { x, y: self.min.y }, max: self.max }
    }

    /// The lane `min.y` replaced.
    pub open spec fn with_min_y(self, y: u32) -> Corners {
        Corners { min: Components { x: self.min.x, y }, max: self.max }
    }

    /// The lane `max.x` replaced.
    pub open spec fn with_max_x(self, x: u32) -> Corners {
        Corners { min: self.min, max: Components { x, y: self.max.y } }
    }

    /// The lane `max.y` replaced.
    pub open spec fn with_max_y(self, y: u32) -> Corners {
        Corners { min: self.min, max: Components { x: self.max.x, y } }
    }

    /// `max.x` set to `min.x + width`.
    pub open spec fn with_width(self, width: u32) -> Corners {
        self.with_max_x(float_sum(self.min.x, width))
    }

    /// `max.y` set to `min.y + height`.
    pub open spec fn with_height(self, height: u32) -> Corners {
        self.with_max_y(float_sum(self.min.y, height))
    }

    /// `max` set to `min + size`, lane by lane.
    pub open spec fn with_size(self, size: Components) -> Corners {
        self.with_width(size.x).with_height(size.y)
    }

    /// Moved along the first axis: `min.x` becomes `x`, and `max.x` grows by `x - min.x`.
    pub open spec fn moved_to_x(self, x: u32) -> Corners {
        Corners {
            min: Components { x, y: self.min.y },
            max: Components {
                x: float_sum(self.max.x, float_difference(x, self.min.x)),
                y: self.max.y,
            },
        }
    }

    /// Moved along the second axis: `min.y` becomes `y`, and `max.y` grows by `y - min.y`.
    pub open spec fn moved_to_y(self, y: u32) -> Corners {
        Corners {
            min: Components { x: self.min.x, y },
            max: Components {
                x: self.max.x,
                y: float_sum(self.max.y, float_difference(y, self.min.y)),
            },
        }
    }

    /// Moved along both axes, the first axis first.
    pub open spec fn moved_to(self, position: Components) -> Corners {
        self.moved_to_x(position.x).moved_to_y(position.y)
    }

    /// Where `min` has to go for the center to come to `center`: `center` less half the
    /// size, lane by lane.
    pub open spec fn corner_for_center(self, center: Components) -> Components {
        center.minus(self.size().scaled(HALF))
    }

    /// Moved so that `min` lies half the size before `center`.
    pub open spec fn centered_at(self, center: Components) -> Corners {
        self.moved_to(self.corner_for_center(center))
    }

    /// The text `Rectangle { MinX: .., MinY: .., MaxX: .., MaxY: .. }`.
    pub open spec fn text(self) -> Seq<char> {
        "Rectangle { MinX: "@ + decimal(self.min.x) + ", MinY: "@ + decimal(self.min.y)
            + ", MaxX: "@ + decimal(self.max.x) + ", MaxY: "@ + decimal(self.max.y) + " }"@
    }

    /// Writing one corner leaves the other as it was, and setting the width, the height
    /// or the size leaves `min` as it was.
    pub proof fn law_resizing_keeps_the_other_corner(
        self,
        corner: Components,
        width: u32,
        height: u32,
        size: Components,
    )
        ensures
            self.with_min(corner).max == self.max,
            self.with_max(corner).min == self.min,
            self.with_width(width).min == self.min,
            self.with_height(height).min == self.min,
            self.with_size(size).min == self.min,
    {
    }

    /// Writing one lane of a corner changes that lane and no other.
    pub proof fn law_one_lane_at_a_time(self, p: u32)
        ensures
            self.with_min_x(p) == (Corners { min: Components { x: p, ..self.min }, ..self }),
            self.with_min_y(p) == (Corners { min: Components { y: p, ..self.min }, ..self }),
            self.with_max_x(p) == (Corners { max: Components { x: p, ..self.max }, ..self }),
            self.with_max_y(p) == (Corners { max: Components { y: p, ..self.max }, ..self }),
            self.with_width(p).max.y == self.max.y,
            self.with_height(p).max.x == self.max.x,
    {
    }

    /// After the width is set to `width` it reads `(min.x + width) - min.x`. That is
    /// `width` itself exactly where the sum comes back, and likewise for the height.
    pub proof fn law_width_after_resizing(self, width: u32, height: u32)
        ensures
            self.with_width(width).width() == float_difference(
                float_sum(self.min.x, width),
                self.min.x,
            ),
            self.with_width(width).width() == width <==> comes_back(self.min.x, width),
            self.with_width(width).height() == self.height(),
            self.with_height(height).height() == height <==> comes_back(self.min.y, height),
            self.with_height(height).width() == self.width(),
    {
    }

    /// Setting the size is setting the width and the height, in either order, and adds
    /// the size to `min` lane by lane.
    pub proof fn law_size_is_width_and_height(self, size: Components)
        ensures
            self.with_size(size) == self.with_height(size.y).with_width(size.x),
            self.with_size(size).max == self.min.plus(size),
            self.with_size(size).size() == size <==> comes_back(self.min.x, size.x)
                && comes_back(self.min.y, size.y),
    {
    }

    /// Moving along one axis puts `min` on that axis where it was asked to be and leaves
    /// the other axis alone. The extent along the axis is kept exactly where the pair
    /// `min`, `max` keeps its distance on the way.
    pub proof fn law_moving_keeps_the_extent(self, x: u32, y: u32)
        ensures
            self.moved_to_x(x).min.x == x,
            self.moved_to_x(x).height() == self.height(),
            self.moved_to_x(x).width() == self.width() <==> keeps_distance(
                self.min.x,
                self.max.x,
                x,
            ),
            self.moved_to_y(y).min.y == y,
            self.moved_to_y(y).width() == self.width(),
            self.moved_to_y(y).height() == self.height() <==> keeps_distance(
                self.min.y,
                self.max.y,
                y,
            ),
    {
    }

    /// Moving to a position is moving along both axes, in either order. It puts `min` at
    /// the position and adds the step `position - min` to `max`.
    pub proof fn law_position_is_both_axes(self, position: Components)
        ensures
            self.moved_to(position) == self.moved_to_y(position.y).moved_to_x(position.x),
            self.moved_to(position).min == position,
            self.moved_to(position).max == self.max.plus(position.minus(self.min)),
            self.moved_to(position).size() == self.size() <==> keeps_distance(
                self.min.x,
                self.max.x,
                position.x,
            ) && keeps_distance(self.min.y, self.max.y, position.y),
    {
    }

    /// Centering is a move: it puts `min` half the size before the center asked for, and
    /// keeps the size exactly where that move does. The center then reads half of the new
    /// `min + max`; rounding aside, that is the center asked for.
    pub proof fn law_centering_is_a_move(self, center: Components)
        ensures
            self.centered_at(center).min == center.minus(self.size().scaled(HALF)),
            self.centered_at(center).max == self.max.plus(
                self.corner_for_center(center).minus(self.min),
            ),
            self.centered_at(center).center() == self.corner_for_center(center).plus(
                self.max.plus(self.corner_for_center(center).minus(self.min)),
            ).scaled(HALF),
            self.centered_at(center).size() == self.size() <==> keeps_distance(
                self.min.x,
                self.max.x,
                self.corner_for_center(center).x,
            ) && keeps_distance(self.min.y, self.max.y, self.corner_for_center(center).y),
    {
    }

    /// Moving an edge is not moving the rectangle: both put `min.x` at `x`, but only the
    /// move takes `max.x` along.
    pub proof fn law_edge_or_whole(self, x: u32)
        ensures
            self.with_min_x(x).min == self.moved_to_x(x).min,
            self.with_min_x(x).max == self.max,
            self.moved_to_x(x).max.x == float_sum(self.max.x, float_difference(x, self.min.x)),
            self.with_min_x(x).width() == float_difference(self.max.x, x),
    {
    }
}

impl View for Rectangle {
    type V = Corners;

    closed spec fn view(&self) -> Corners {
        Corners { min: components(self.min), max: components(self.max) }
    }
}

impl Rectangle {
    /// The rectangle between `(min_x, min_y)` and `(max_x, max_y)`.
    pub fn new(min_x: Scalar, min_y: Scalar, max_x: Scalar, max_y: Scalar) -> (r: Self)
        ensures
            r@ == (Corners {
                min: Components { x: min_x@, y: min_y@ },
                max: Components { x: max_x@, y: max_y@ },
            }),
    {
        Self::new_coordinates(vec2(min_x, min_y), vec2(max_x, max_y))
    }

    /// The rectangle between the corners `min` and `max`.
    pub fn new_coordinates(min: Vec2, max: Vec2) -> (r: Self)
        ensures
            r@ == (Corners { min: components(min), max: components(max) }),
    {
        Self { min, max }
    }

    /// The rectangle that starts at `min` and ends at `min + (width, height)`.
    pub fn new_dimensions(min: Vec2, width: Scalar, height: Scalar) -> (r: Self)
        ensures
            r@ == (Corners {
                min: components(min),
                max: components(min).plus(Components { x: width@, y: height@ }),
            }),
    {
        let max_x = Scalar::x_of(min).plus(width);
        let max_y = Scalar::y_of(min).plus(height);
        Self::new_coordinates(min, vec2(max_x, max_y))
    }

    /// The `min` corner.
    pub fn min(&self) -> (v: Vec2)
        ensures
            components(v) == self@.min,
    {
        self.min
    }

    /// The `max` corner.
    pub fn max(&self) -> (v: Vec2)
        ensures
            components(v) == self@.max,
    {
        self.max
    }

    /// Replaces the `min` corner. The `max` corner stays as it is.
    pub fn set_min(&mut self, min: Vec2)
        ensures
            final(self)@ == old(self)@.with_min(components(min)),
    {
        self.min = min;
    }

    /// Replaces the `max` corner. The `min` corner stays as it is.
    pub fn set_max(&mut self, max: Vec2)
        ensures
            final(self)@ == old(self)@.with_max(components(max)),
    {
        self.max = max;
    }

    /// `min.x`.
    pub fn x(&self) -> (s: Scalar)
        ensures
            s@ == self@.min.x,
    {
        Scalar::x_of(self.min)
    }

    /// `min.x`.
    pub fn min_x(&self) -> (s: Scalar)
        ensures
            s@ == self@.min.x,
    {
        Scalar::x_of(self.min)
    }

    /// `max.x`.
    pub fn max_x(&self) -> (s: Scalar)
        ensures
            s@ == self@.max.x,
    {
        Scalar::x_of(self.max)
    }

    /// `min.y`.
    pub fn y(&self) -> (s: Scalar)
        ensures
            s@ == self@.min.y,
    {
        Scalar::y_of(self.min)
    }

    /// `min.y`.
    pub fn min_y(&self) -> (s: Scalar)
        ensures
            s@ == self@.min.y,
    {
        Scalar::y_of(self.min)
    }

    /// `max.y`.
    pub fn max_y(&self) -> (s: Scalar)
        ensures
            s@ == self@.max.y,
    {
        Scalar::y_of(self.max)
    }

    /// `max.x - min.x`. It is negative where `max` lies left of `min`.
    pub fn width(&self) -> (s: Scalar)
        ensures
            s@ == self@.width(),
    {
        Scalar::x_of(self.max).minus(Scalar::x_of(self.min))
    }

    /// `max.y - min.y`. It is negative where `max` lies below `min`.
    pub fn height(&self) -> (s: Scalar)
        ensures
            s@ == self@.height(),
    {
        Scalar::y_of(self.max).minus(Scalar::y_of(self.min))
    }

    /// Width and height as a vector.
    pub fn size(&self) -> (v: Vec2)
        ensures
            components(v) == self@.size(),
    {
        vec2(self.width(), self.height())
    }

    /// The `min` corner.
    pub fn position(&self) -> (v: Vec2)
        ensures
            components(v) == self@.min,
    {
        self.min
    }

    /// `(min + max) * 0.5`.
    pub fn center(&self) -> (v: Vec2)
        ensures
            components(v) == self@.center(),
    {
        scale(sum(self.min, self.max), Scalar::half())
    }

    /// Moves the rectangle along the first axis until `min.x` is `x`; `max.x` moves by the
    /// same step, `x - min.x`. The second axis stays as it is.
    pub fn set_x(&mut self, x: Scalar)
        ensures
            final(self)@ == old(self)@.moved_to_x(x@),
    {
        let step = x.minus(Scalar::x_of(self.min));
        self.max = vec2(Scalar::x_of(self.max).plus(step), Scalar::y_of(self.max));
        self.min = vec2(x, Scalar::y_of(self.min));
    }

    /// Sets `min.x`. Nothing else changes, so the width does.
    pub fn set_min_x(&mut self, x: Scalar)
        ensures
            final(self)@ == old(self)@.with_min_x(x@),
    {
        self.min = vec2(x, Scalar::y_of(self.min));
    }

    /// Sets `max.x`. Nothing else changes, so the width does.
    pub fn set_max_x(&mut self, x: Scalar)
        ensures
            final(self)@ == old(self)@.with_max_x(x@),
    {
        self.max = vec2(x, Scalar::y_of(self.max));
    }

    /// Moves the rectangle along the second axis until `min.y` is `y`; `max.y` moves by the
    /// same step, `y - min.y`. The first axis stays as it is.
    pub fn set_y(&mut self, y: Scalar)
        ensures
            final(self)@ == old(self)@.moved_to_y(y@),
    {
        let step = y.minus(Scalar::y_of(self.min));
        self.max = vec2(Scalar::x_of(self.max), Scalar::y_of(self.max).plus(step));
        self.min = vec2(Scalar::x_of(self.min), y);
    }

    /// Sets `min.y`. Nothing else changes, so the height does.
    pub fn set_min_y(&mut self, y: Scalar)
        ensures
            final(self)@ == old(self)@.with_min_y(y@),
    {
        self.min = vec2(Scalar::x_of(self.min), y);
    }

    /// Sets `max.y`. Nothing else changes, so the height does.
    pub fn set_max_y(&mut self, y: Scalar)
        ensures
            final(self)@ == old(self)@.with_max_y(y@),
    {
        self.max = vec2(Scalar::x_of(self.max), y);
    }

    /// Sets `max.x` to `min.x + width`. The `min` corner and `max.y` stay as they are.
    pub fn set_width(&mut self, width: Scalar)
        ensures
            final(self)@ == old(self)@.with_width(width@),
    {
        self.max = vec2(Scalar::x_of(self.min).plus(width), Scalar::y_of(self.max));
    }

    /// Sets `max.y` to `min.y + height`. The `min` corner and `max.x` stay as they are.
    pub fn set_height(&mut self, height: Scalar)
        ensures
            final(self)@ == old(self)@.with_height(height@),
    {
        self.max = vec2(Scalar::x_of(self.max), Scalar::y_of(self.min).plus(height));
    }

    /// Sets `max` to `min + size`. The `min` corner stays as it is.
    pub fn set_size(&mut self, size: Vec2)
        ensures
            final(self)@ == old(self)@.with_size(components(size)),
    {
        self.set_width(Scalar::x_of(size));
        self.set_height(Scalar::y_of(size));
    }

    /// Moves the rectangle until `min` is `position`; `max` moves by the same step.
    pub fn set_position(&mut self, position: Vec2)
        ensures
            final(self)@ == old(self)@.moved_to(components(position)),
    {
        self.set_x(Scalar::x_of(position));
        self.set_y(Scalar::y_of(position));
    }

    /// Moves the rectangle so that `min` lies half the size before `center`.
    pub fn set_center(&mut self, center: Vec2)
        ensures
            final(self)@ == old(self)@.centered_at(components(center)),
    {
        let half_width = self.width().times(Scalar::half());
        let half_height = self.height().times(Scalar::half());
        self.set_position(
            vec2(
                Scalar::x_of(center).minus(half_width),
                Scalar::y_of(center).minus(half_height),
            ),
        );
    }

    /// The rectangle as text, each lane as the standard library writes a number.
    pub fn to_string(&self) -> (r: String)
        ensures
            r@ == self@.text(),
    {
        let mut text = String::from_str("Rectangle { MinX: ");
        text.append(self.min_x().to_string().as_str());
        text.append(", MinY: ");
        text.append(self.min_y().to_string().as_str());
        text.append(", MaxX: ");
        text.append(self.max_x().to_string().as_str());
        text.append(", MaxY: ");
        text.append(self.max_y().to_string().as_str());
        text.append(" }");
        text
    }
}

impl Default for Rectangle {
    /// The unit square: from `(0, 0)` to `(1, 1)`.
    fn default() -> (r: Self)
        ensures
            r@ == (Corners { min: Components::uniform(ZERO), max: Components::uniform(ONE) }),
    {
        Self { min: zeros(), max: ones() }
    }
}

} // verus!
