use tiny_rpg::math::{Dimension, Point, Rectangle, TwoDimensional};

#[test]
fn point_new_and_setters() {
    let mut p = Point::new(3, -4);
    assert_eq!(p.get_x(), 3);
    assert_eq!(p.get_y(), -4);
    assert_eq!(p.get_coordinates(), (3, -4));
    p.set_x(10);
    p.set_y(20);
    assert_eq!(p, Point::new(10, 20));
}

#[test]
fn dimension_new_and_setters() {
    let mut d = Dimension::new(7, 9);
    assert_eq!(d.get_width(), 7);
    assert_eq!(d.get_height(), 9);
    assert_eq!(d.get_x(), 7);
    assert_eq!(d.get_y(), 9);
    assert_eq!(d.get_coordinates(), (7, 9));
    d.set_width(1);
    d.set_height(2);
    assert_eq!(d, Dimension::new(1, 2));
}

#[test]
fn rectangle_inclusive_bounds() {
    let r = Rectangle::new(2, 3, 4, 5);
    assert_eq!(r.x(), 2);
    assert_eq!(r.y(), 3);
    assert_eq!(r.width(), 4);
    assert_eq!(r.height(), 5);
    assert_eq!(r.x_min(), 2);
    assert_eq!(r.x_max(), 5);
    assert_eq!(r.y_min(), 3);
    assert_eq!(r.y_max(), 7);
    assert_eq!(r.get_point(), Point::new(2, 3));
    assert_eq!(r.get_dimension(), Dimension::new(4, 5));
}

#[test]
fn rectangle_one_tile_bounds() {
    let r = Rectangle::new(5, 5, 1, 1);
    assert_eq!(r.x_max(), 5);
    assert_eq!(r.y_max(), 5);
}

#[test]
fn rectangle_moves() {
    let mut r = Rectangle::new(0, 0, 2, 2);
    r.move_x(3);
    assert_eq!(r.get_point(), Point::new(3, 0));
    r.move_y(-2);
    assert_eq!(r.get_point(), Point::new(3, -2));
    r.move_xy(Point::new(-1, 4));
    assert_eq!(r.get_point(), Point::new(2, 2));
    assert_eq!(r.get_dimension(), Dimension::new(2, 2));
}

#[test]
fn collision_overlapping() {
    let a = Rectangle::new(0, 0, 3, 3);
    let b = Rectangle::new(2, 2, 3, 3);
    assert!(a.is_colliding(b));
    assert!(!a.is_not_colliding(b));
}

#[test]
fn collision_adjacent_tiles_do_not_touch() {
    let a = Rectangle::new(0, 0, 1, 1);
    let right = Rectangle::new(1, 0, 1, 1);
    let below = Rectangle::new(0, 1, 1, 1);
    assert!(!a.is_colliding(right));
    assert!(!a.is_colliding(below));
}

#[test]
fn collision_disjoint() {
    let a = Rectangle::new(0, 0, 2, 2);
    let b = Rectangle::new(10, 10, 2, 2);
    assert!(!a.is_colliding(b));
    assert!(a.is_not_colliding(b));
}

#[test]
fn collision_contained() {
    let outer = Rectangle::new(0, 0, 10, 10);
    let inner = Rectangle::new(4, 4, 1, 1);
    assert!(outer.is_colliding(inner));
    assert!(inner.is_colliding(outer));
}

#[test]
fn collision_is_symmetric() {
    let pairs = [
        (Rectangle::new(0, 0, 3, 3), Rectangle::new(2, 2, 3, 3)),
        (Rectangle::new(0, 0, 1, 1), Rectangle::new(1, 0, 1, 1)),
        (Rectangle::new(-5, -5, 4, 4), Rectangle::new(-3, -3, 1, 1)),
        (Rectangle::new(7, 7, 2, 1), Rectangle::new(100, 100, 5, 5)),
    ];
    for (a, b) in pairs.iter() {
        assert_eq!(a.is_colliding(*b), b.is_colliding(*a));
    }
}

#[test]
fn collision_with_self() {
    let rects = [
        Rectangle::new(0, 0, 1, 1),
        Rectangle::new(-10, 3, 7, 2),
        Rectangle::new(50, 50, 100, 100),
    ];
    for r in rects.iter() {
        assert!(r.is_colliding(*r));
    }
}
