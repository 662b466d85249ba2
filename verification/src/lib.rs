//! Elementary shapes in the plane: point, line segment, ray, axis-aligned rectangle, circle
//! and triangle, on the single-precision vectors of `glam`.
//!
//! Each shape keeps a small set of coordinates and derives the rest from them. What a
//! derived quantity is, and what a setter changes and what it leaves alone, is stated in
//! the contract of each function, over the bit patterns of the numbers involved: see
//! [`float`] for how a number is written, [`vector`] for what is taken on trust about
//! `glam`, and [`scalar`] for the number type that the shapes take and return.

pub mod circle;
pub mod ellipse;
pub mod float;
pub mod line;
pub mod point;
pub mod polygon;
pub mod prelude;
pub mod ray;
pub mod rectangle;
pub mod scalar;
pub mod triangle;
pub mod vector;
