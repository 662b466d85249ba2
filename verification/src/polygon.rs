//! The polygon: a shape that is named and not yet worked out.

use vstd::prelude::*;
use glam::Vec2;

verus! {

/// A polygon through `coordinates`. It has no constructor and no operation yet, so that
/// code which reaches for one fails to compile instead of getting an empty answer.
#[allow(dead_code)]
pub struct Polygon {
    coordinates: Vec<Vec2>,
}

} // verus!
