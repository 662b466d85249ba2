use glam::Vec2;
use shapes2d::prelude::{Line, Scalar};

fn num(v: f32) -> Scalar {
    Scalar::x_of(Vec2::splat(v))
}

fn val(s: Scalar) -> f32 {
    s.splat().x
}

#[test]
fn line_new_keeps_both_ends() {
    let line = Line::new(Vec2::ZERO, Vec2::ONE);
    assert_eq!(line.direction(), Vec2::ONE);
    assert_eq!(line.origin(), Vec2::ZERO);
    assert_eq!(line.end(), Vec2::ONE);
}

#[test]
fn line_new_direction_walks_the_distance() {
    let line = Line::new_direction(Vec2::ZERO, Vec2::new(1., 0.), num(5.));
    assert_eq!(line.end(), Vec2::new(5., 0.));
    assert_eq!(line.origin(), Vec2::ZERO);
}

#[test]
fn line_new_direction_brings_the_direction_to_length_one() {
    let line = Line::new_direction(Vec2::new(1., 1.), Vec2::new(0., 10.), num(2.));
    assert_eq!(line.end(), Vec2::new(1., 3.));
    let line = Line::new_direction(Vec2::new(1., 1.), Vec2::new(3., 4.), num(5.));
    assert!((line.end() - Vec2::new(4., 5.)).length() < 1.0e-5);
}

#[test]
fn line_new_direction_with_zero_direction_stays_at_origin() {
    let line = Line::new_direction(Vec2::new(3., 4.), Vec2::ZERO, num(5.));
    assert_eq!(line.end(), Vec2::new(3., 4.));
    let line = Line::new_direction(Vec2::new(3., 4.), Vec2::ZERO, num(-1.0e30));
    assert_eq!(line.end(), Vec2::new(3., 4.));
}

#[test]
fn line_new_direction_with_a_direction_that_is_not_finite() {
    let line = Line::new_direction(Vec2::new(3., 4.), Vec2::new(f32::INFINITY, 0.), num(5.));
    assert_eq!(line.end(), Vec2::new(3., 4.));
    let line = Line::new_direction(Vec2::new(3., 4.), Vec2::new(f32::NAN, 1.), num(5.));
    assert_eq!(line.end(), Vec2::new(3., 4.));
}

#[test]
fn line_origin_and_end() {
    let line = Line::new(Vec2::ZERO, Vec2::ONE);
    assert_eq!(line.origin(), Vec2::ZERO);
    assert_eq!(line.end(), Vec2::ONE);
}

#[test]
fn line_set_origin_leaves_the_end() {
    let mut line = Line::new(Vec2::ZERO, Vec2::ONE);
    line.set_origin(Vec2::NEG_ONE);
    assert_eq!(line.origin(), Vec2::NEG_ONE);
    assert_eq!(line.end(), Vec2::ONE);
}

#[test]
fn line_set_end_leaves_the_origin() {
    let mut line = Line::new(Vec2::ZERO, Vec2::ONE);
    line.set_end(Vec2::NEG_ONE);
    assert_eq!(line.end(), Vec2::NEG_ONE);
    assert_eq!(line.origin(), Vec2::ZERO);
}

#[test]
fn line_center_is_halfway() {
    let line = Line::new(Vec2::ZERO, Vec2::ONE);
    assert_eq!(line.center(), Vec2::new(0.5, 0.5));
    let line = Line::new(Vec2::new(-1., 2.), Vec2::new(4., 8.));
    assert_eq!(line.center(), Vec2::new(1.5, 5.));
}

#[test]
fn line_scenario_direction_and_length() {
    let line = Line::new(Vec2::ZERO, Vec2::new(2., 0.));
    assert_eq!(line.direction(), Vec2::new(2., 0.));
    assert_eq!(val(line.length()), 2.);
}

#[test]
fn line_direction_is_end_less_origin() {
    let line = Line::new(Vec2::new(1., 5.), Vec2::new(4., 3.));
    assert_eq!(line.direction(), Vec2::new(3., -2.));
}

#[test]
fn line_length_is_the_larger_lane_not_the_norm() {
    let line = Line::new(Vec2::ZERO, Vec2::new(3., 4.));
    assert_eq!(val(line.length()), 4.);
    let line = Line::new(Vec2::ZERO, Vec2::new(4., 3.));
    assert_eq!(val(line.length()), 4.);
    let line = Line::new(Vec2::ZERO, Vec2::new(-3., -4.));
    assert_eq!(val(line.length()), -3.);
    let line = Line::new(Vec2::ZERO, Vec2::new(-5., 0.));
    assert_eq!(val(line.length()), 0.);
}

#[test]
fn line_length_of_a_point_is_zero() {
    let line = Line::new(Vec2::new(2., 3.), Vec2::new(2., 3.));
    assert_eq!(line.direction(), Vec2::ZERO);
    assert_eq!(val(line.length()), 0.);
}

#[test]
fn line_length_with_a_nan_lane() {
    let line = Line::new(Vec2::ZERO, Vec2::new(f32::NAN, 1.));
    assert_eq!(val(line.length()), 1.);
    let line = Line::new(Vec2::ZERO, Vec2::new(1., f32::NAN));
    assert!(val(line.length()).is_nan());
}

#[test]
fn line_up_right_down_left() {
    let up = Line::up();
    assert_eq!(up.origin(), Vec2::ZERO);
    assert_eq!(up.end(), Vec2::new(0., 1.));
    let right = Line::right();
    assert_eq!(right.origin(), Vec2::ZERO);
    assert_eq!(right.end(), Vec2::new(1., 0.));
    let down = Line::down();
    assert_eq!(down.origin(), Vec2::ZERO);
    assert_eq!(down.end(), Vec2::new(0., -1.));
    let left = Line::left();
    assert_eq!(left.origin(), Vec2::ZERO);
    assert_eq!(left.end(), Vec2::new(-1., 0.));
}

#[test]
fn line_default_runs_from_zero_to_one() {
    let line = Line::default();
    assert_eq!(line.origin(), Vec2::ZERO);
    assert_eq!(line.end(), Vec2::ONE);
}

#[test]
fn line_to_string() {
    let line = Line::new(Vec2::ZERO, Vec2::new(2.5, -1.));
    assert_eq!(line.to_string(), "Line { origin: [0, 0], end: [2.5, -1] }");
}
