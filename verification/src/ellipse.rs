//! The ellipse: a shape that is named and not yet worked out.

use vstd::prelude::*;
use glam::Vec2;
use crate::scalar::Scalar;

verus! {

/// An ellipse round `center`. It has no constructor and no operation yet, so that code
/// which reaches for one fails to compile instead of getting an empty answer.
#[allow(dead_code)]
pub struct Ellipse {
    center: Vec2,
    radius_major: Scalar,
    radius_minor: Scalar,
}

} // verus!
