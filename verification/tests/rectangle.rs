use glam::Vec2;
use shapes2d::prelude::{vec2, Rectangle, Scalar};

fn num(v: f32) -> Scalar {
    Scalar::x_of(Vec2::splat(v))
}

fn val(s: Scalar) -> f32 {
    s.splat().x
}

fn square() -> Rectangle {
    Rectangle::new(num(0.), num(0.), num(2.), num(2.))
}

#[test]
fn rectangle_new_keeps_the_four_numbers() {
    let rect = Rectangle::new(num(0.), num(0.), num(1.), num(1.));
    assert_eq!(val(rect.x()), 0.);
    assert_eq!(val(rect.y()), 0.);
    assert_eq!(val(rect.max_x()), 1.);
    assert_eq!(val(rect.max_y()), 1.);
}

#[test]
fn rectangle_new_tells_the_lanes_apart() {
    let rect = Rectangle::new(num(1.), num(2.), num(3.), num(4.));
    assert_eq!(rect.min(), Vec2::new(1., 2.));
    assert_eq!(rect.max(), Vec2::new(3., 4.));
    assert_eq!(val(rect.min_x()), 1.);
    assert_eq!(val(rect.min_y()), 2.);
    assert_eq!(val(rect.max_x()), 3.);
    assert_eq!(val(rect.max_y()), 4.);
}

#[test]
fn rectangle_new_coordinates_keeps_the_corners() {
    let rect = Rectangle::new_coordinates(Vec2::ZERO, Vec2::ONE);
    assert_eq!(val(rect.x()), 0.);
    assert_eq!(val(rect.y()), 0.);
    assert_eq!(val(rect.max_x()), 1.);
    assert_eq!(val(rect.max_y()), 1.);
}

#[test]
fn rectangle_new_dimensions_adds_the_size_to_min() {
    let rect = Rectangle::new_dimensions(Vec2::ZERO, num(1.), num(1.));
    assert_eq!(val(rect.x()), 0.);
    assert_eq!(val(rect.y()), 0.);
    assert_eq!(val(rect.max_x()), 1.);
    assert_eq!(val(rect.max_y()), 1.);

    let rect = Rectangle::new_dimensions(Vec2::new(1., -2.), num(3.), num(0.5));
    assert_eq!(rect.min(), Vec2::new(1., -2.));
    assert_eq!(rect.max(), Vec2::new(4., -1.5));
}

#[test]
fn rectangle_min_and_max() {
    let rect = Rectangle::new(num(0.), num(0.), num(1.), num(1.));
    assert_eq!(rect.min(), Vec2::ZERO);
    assert_eq!(rect.max(), Vec2::ONE);
}

#[test]
fn rectangle_set_min_leaves_max() {
    let mut rect = square();
    rect.set_min(Vec2::ONE);
    assert_eq!(rect.min(), Vec2::ONE);
    assert_eq!(rect.max(), Vec2::new(2., 2.));
}

#[test]
fn rectangle_set_max_leaves_min() {
    let mut rect = square();
    rect.set_max(Vec2::ONE);
    assert_eq!(rect.max(), Vec2::ONE);
    assert_eq!(rect.min(), Vec2::ZERO);
}

#[test]
fn rectangle_set_min_keeps_every_bit_of_max() {
    let mut rect = Rectangle::new_coordinates(Vec2::new(0., 0.), Vec2::new(-0., 0.1));
    rect.set_min(Vec2::new(7., 8.));
    assert_eq!(rect.max().x.to_bits(), (-0.0f32).to_bits());
    assert_eq!(rect.max().y.to_bits(), 0.1f32.to_bits());
}

#[test]
fn rectangle_lanes_of_the_square() {
    let rect = square();
    assert_eq!(val(rect.x()), 0.);
    assert_eq!(val(rect.min_x()), 0.);
    assert_eq!(val(rect.max_x()), 2.);
    assert_eq!(val(rect.y()), 0.);
    assert_eq!(val(rect.min_y()), 0.);
    assert_eq!(val(rect.max_y()), 2.);
}

#[test]
fn rectangle_width_and_height() {
    let rect = square();
    assert_eq!(val(rect.width()), 2.);
    assert_eq!(val(rect.height()), 2.);

    let rect = Rectangle::new(num(1.), num(10.), num(4.), num(15.));
    assert_eq!(val(rect.width()), 3.);
    assert_eq!(val(rect.height()), 5.);
}

#[test]
fn rectangle_size_position_center() {
    let rect = square();
    assert_eq!(rect.size(), Vec2::new(2., 2.));
    assert_eq!(rect.position(), Vec2::ZERO);
    assert_eq!(rect.center(), Vec2::ONE);

    let rect = Rectangle::new(num(1.), num(10.), num(4.), num(15.));
    assert_eq!(rect.size(), Vec2::new(3., 5.));
    assert_eq!(rect.position(), Vec2::new(1., 10.));
    assert_eq!(rect.center(), Vec2::new(2.5, 12.5));
}

#[test]
fn rectangle_inverted_has_negative_extent() {
    let rect = Rectangle::new(num(3.), num(4.), num(1.), num(1.));
    assert_eq!(val(rect.width()), -2.);
    assert_eq!(val(rect.height()), -3.);
    assert_eq!(rect.size(), Vec2::new(-2., -3.));
    assert_eq!(rect.center(), Vec2::new(2., 2.5));
}

#[test]
fn rectangle_set_x_keeps_the_width() {
    let mut rect = square();
    assert_eq!(val(rect.width()), 2.);
    rect.set_x(num(1.));
    assert_eq!(val(rect.width()), 2.);
}

#[test]
fn rectangle_scenario_move_along_x() {
    let mut rect = square();
    assert_eq!(val(rect.width()), 2.);
    assert_eq!(val(rect.height()), 2.);
    rect.set_x(num(1.));
    assert_eq!(val(rect.min_x()), 1.);
    assert_eq!(val(rect.max_x()), 3.);
    assert_eq!(val(rect.width()), 2.);
    assert_eq!(val(rect.min_y()), 0.);
    assert_eq!(val(rect.max_y()), 2.);
}

#[test]
fn rectangle_set_min_x_changes_the_width() {
    let mut rect = square();
    assert_eq!(val(rect.width()), 2.);
    rect.set_min_x(num(1.));
    assert_eq!(val(rect.width()), 1.);
    assert_eq!(rect.min(), Vec2::new(1., 0.));
    assert_eq!(rect.max(), Vec2::new(2., 2.));
}

#[test]
fn rectangle_set_max_x_changes_the_width() {
    let mut rect = square();
    assert_eq!(val(rect.width()), 2.);
    rect.set_max_x(num(1.));
    assert_eq!(val(rect.width()), 1.);
    assert_eq!(rect.min(), Vec2::new(0., 0.));
    assert_eq!(rect.max(), Vec2::new(1., 2.));
}

#[test]
fn rectangle_set_y_keeps_the_height() {
    let mut rect = square();
    assert_eq!(val(rect.height()), 2.);
    rect.set_y(num(1.));
    assert_eq!(val(rect.height()), 2.);
    assert_eq!(rect.min(), Vec2::new(0., 1.));
    assert_eq!(rect.max(), Vec2::new(2., 3.));
}

#[test]
fn rectangle_set_min_y_changes_the_height() {
    let mut rect = square();
    assert_eq!(val(rect.height()), 2.);
    rect.set_min_y(num(1.));
    assert_eq!(val(rect.height()), 1.);
    assert_eq!(rect.min(), Vec2::new(0., 1.));
    assert_eq!(rect.max(), Vec2::new(2., 2.));
}

#[test]
fn rectangle_set_max_y_changes_the_height() {
    let mut rect = square();
    assert_eq!(val(rect.height()), 2.);
    rect.set_max_y(num(1.));
    assert_eq!(val(rect.height()), 1.);
    assert_eq!(rect.min(), Vec2::new(0., 0.));
    assert_eq!(rect.max(), Vec2::new(2., 1.));
}

#[test]
fn rectangle_set_width_counts_from_min() {
    let mut rect = square();
    rect.set_width(num(1.));
    assert_eq!(val(rect.max_x()), 1.);

    let mut rect = Rectangle::new(num(5.), num(6.), num(7.), num(8.));
    rect.set_width(num(10.));
    assert_eq!(rect.min(), Vec2::new(5., 6.));
    assert_eq!(rect.max(), Vec2::new(15., 8.));
    assert_eq!(val(rect.width()), 10.);
}

#[test]
fn rectangle_set_height_counts_from_min() {
    let mut rect = square();
    rect.set_height(num(1.));
    assert_eq!(val(rect.max_y()), 1.);

    let mut rect = Rectangle::new(num(5.), num(6.), num(7.), num(8.));
    rect.set_height(num(10.));
    assert_eq!(rect.min(), Vec2::new(5., 6.));
    assert_eq!(rect.max(), Vec2::new(7., 16.));
    assert_eq!(val(rect.height()), 10.);
}

#[test]
fn rectangle_set_size_counts_from_min() {
    let mut rect = square();
    rect.set_size(Vec2::ONE);
    assert_eq!(val(rect.max_x()), 1.);
    assert_eq!(val(rect.max_y()), 1.);

    let mut rect = Rectangle::new(num(5.), num(6.), num(7.), num(8.));
    rect.set_size(Vec2::new(1., 3.));
    assert_eq!(rect.min(), Vec2::new(5., 6.));
    assert_eq!(rect.max(), Vec2::new(6., 9.));
    assert_eq!(rect.size(), Vec2::new(1., 3.));
}

#[test]
fn rectangle_set_position_takes_max_along() {
    let mut rect = square();
    rect.set_position(Vec2::ONE);
    assert_eq!(val(rect.max_x()), 3.);
    assert_eq!(val(rect.max_y()), 3.);
    assert_eq!(rect.position(), Vec2::ONE);
    assert_eq!(rect.size(), Vec2::new(2., 2.));
}

#[test]
fn rectangle_set_center_moves_both_corners() {
    let mut rect = square();
    rect.set_center(Vec2::ZERO);
    assert_eq!(val(rect.min_x()), -1.);
    assert_eq!(val(rect.min_y()), -1.);
    assert_eq!(val(rect.max_x()), 1.);
    assert_eq!(val(rect.max_y()), 1.);
    assert_eq!(rect.center(), Vec2::ZERO);
    assert_eq!(val(rect.width()), 2.);
    assert_eq!(val(rect.height()), 2.);
}

#[test]
fn rectangle_set_center_of_an_oblong() {
    let mut rect = Rectangle::new(num(1.), num(10.), num(4.), num(15.));
    rect.set_center(Vec2::new(10., 20.));
    assert_eq!(rect.min(), Vec2::new(8.5, 17.5));
    assert_eq!(rect.max(), Vec2::new(11.5, 22.5));
    assert_eq!(rect.center(), Vec2::new(10., 20.));
    assert_eq!(rect.size(), Vec2::new(3., 5.));
}

#[test]
fn rectangle_edge_move_and_whole_move_differ() {
    let mut edge = square();
    let mut whole = square();
    edge.set_min_x(num(1.));
    whole.set_x(num(1.));
    assert_eq!(edge.min(), whole.min());
    assert_eq!(edge.max(), Vec2::new(2., 2.));
    assert_eq!(whole.max(), Vec2::new(3., 2.));
}

#[test]
fn rectangle_rounding_can_swallow_a_width() {
    let mut rect = Rectangle::new(num(1.0e8), num(0.), num(1.0e8), num(0.));
    rect.set_width(num(1.));
    assert_eq!(rect.min(), Vec2::new(1.0e8, 0.));
    assert_eq!(val(rect.max_x()), 1.0e8);
    assert_eq!(val(rect.width()), 0.);
}

#[test]
fn rectangle_rounding_can_change_the_width_on_a_move() {
    let mut rect = Rectangle::new(num(0.), num(0.), num(1.), num(1.));
    rect.set_x(num(1.0e8));
    assert_eq!(val(rect.min_x()), 1.0e8);
    assert_eq!(val(rect.max_x()), 1.0e8);
    assert_eq!(val(rect.width()), 0.);
    assert_eq!(val(rect.height()), 1.);
}

#[test]
fn rectangle_getters_do_not_change_it() {
    let rect = Rectangle::new(num(1.), num(10.), num(4.), num(15.));
    assert_eq!(rect.center(), rect.center());
    assert_eq!(rect.size(), rect.size());
    assert_eq!(val(rect.width()), val(rect.width()));
    assert_eq!(rect.min(), Vec2::new(1., 10.));
    assert_eq!(rect.max(), Vec2::new(4., 15.));
}

#[test]
fn rectangle_default_is_the_unit_square() {
    let rect = Rectangle::default();
    assert_eq!(rect.min(), Vec2::ZERO);
    assert_eq!(rect.max(), Vec2::ONE);
}

#[test]
fn rectangle_to_string() {
    assert_eq!(square().to_string(), "Rectangle { MinX: 0, MinY: 0, MaxX: 2, MaxY: 2 }");
    let rect = Rectangle::new_coordinates(vec2(num(-1.5), num(0.25)), Vec2::new(3., 4.));
    assert_eq!(rect.to_string(), "Rectangle { MinX: -1.5, MinY: 0.25, MaxX: 3, MaxY: 4 }");
}
