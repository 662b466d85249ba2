//! The shapes, the number they are measured in, and the function that makes a vector of two
//! numbers, under one import.

pub use crate::circle::Circle;
pub use crate::ellipse::Ellipse;
pub use crate::line::Line;
pub use crate::point::Point;
pub use crate::polygon::Polygon;
pub use crate::ray::Ray;
pub use crate::rectangle::Rectangle;
pub use crate::scalar::{vec2, Scalar};
pub use crate::triangle::Triangle;
