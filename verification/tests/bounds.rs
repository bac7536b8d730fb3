use game_core::math::bounds::{Bounds, Point, Rect};
use game_core::math::fixed::Fixed;
use game_core::math::vector2::Vector2;

fn fx(n: i32) -> Fixed {
    Fixed::from_int(n)
}

fn rect(x: i32, y: i32, w: i32, h: i32) -> Rect {
    Rect { x: fx(x), y: fx(y), w: fx(w), h: fx(h) }
}

fn point(x: i32, y: i32) -> Point {
    Vector2 { x: fx(x), y: fx(y) }
}

#[test]
fn test_bounds() {
    let b1 = rect(0, 0, 10, 10);
    let b2 = rect(10, 10, -10, -10);

    assert_eq!(b1.top(), fx(0));
    assert_eq!(b1.left(), fx(0));
    assert_eq!(b1.right(), fx(10));
    assert_eq!(b1.bottom(), fx(10));

    assert_eq!(b2.top(), fx(0));
    assert_eq!(b2.left(), fx(0));
    assert_eq!(b2.right(), fx(10));
    assert_eq!(b2.bottom(), fx(10));
}

#[test]
fn test_inside() {
    let bounds = rect(0, 0, 10, 10);
    let corner = point(0, 0);
    let far_corner = point(10, 10);
    let middle = point(5, 5);
    let far_below = point(0, 100);
    let far_right = point(100, 0);
    let far_left = point(-10, 0);

    assert!(bounds.is_inside(corner));
    assert!(bounds.is_inside(far_corner));
    assert!(bounds.is_inside(middle));
    assert!(!bounds.is_inside(far_below));
    assert!(!bounds.is_inside(far_right));
    assert!(!bounds.is_inside(far_left));
}

#[test]
fn test_inside_inverse() {
    let bounds = rect(10, 10, -10, -10);
    let corner = point(0, 0);
    let far_corner = point(10, 10);
    let middle = point(5, 5);
    let far_below = point(0, 100);
    let far_right = point(100, 0);
    let far_left = point(-10, 0);

    assert!(bounds.is_inside(corner));
    assert!(bounds.is_inside(far_corner));
    assert!(bounds.is_inside(middle));
    assert!(!bounds.is_inside(far_below));
    assert!(!bounds.is_inside(far_right));
    assert!(!bounds.is_inside(far_left));
}

#[test]
fn test_intersects() {
    let canvas = rect(0, 0, 10, 10);

    // r1 is completely inside of canvas
    let r1 = rect(0, 0, 1, 1);

    // a point of r2 is inside of canvas
    let r2 = rect(-1, -1, 1, 1);

    // no point of r3 is inside canvas
    let r3 = rect(11, 0, 1, 1);

    // r4 and canvas form a cross
    let r4 = rect(4, -1, 1, 20);

    // r5.x is between canvas.left and canvas.right, but there is no overlap
    let r5 = rect(4, 100, 1, 1);

    assert!(canvas.intersects(r1));
    assert!(canvas.intersects(r2));
    assert!(!canvas.intersects(r3));
    assert!(canvas.intersects(r4));
    assert!(!canvas.intersects(r5));
}

#[test]
fn edges_are_ordered_for_either_sign() {
    for r in [rect(3, 4, 5, 6), rect(3, 4, -5, 6), rect(3, 4, 5, -6), rect(3, 4, -5, -6)] {
        assert!(r.left() <= r.right());
        assert!(r.top() <= r.bottom());
    }
}

#[test]
fn edges_saturate_with_the_numbers() {
    let r = Rect {
        x: Fixed::from_raw(i64::MAX),
        y: Fixed::from_raw(i64::MIN),
        w: fx(1),
        h: fx(-1),
    };
    assert_eq!(r.right(), Fixed::from_raw(i64::MAX));
    assert_eq!(r.left(), Fixed::from_raw(i64::MAX));
    assert_eq!(r.top(), Fixed::from_raw(i64::MIN));
    assert_eq!(r.bottom(), Fixed::from_raw(i64::MIN));
}

#[test]
fn center_is_halfway() {
    assert_eq!(rect(0, 0, 10, 20).center(), point(5, 10));
    assert_eq!(rect(10, 20, -10, -20).center(), point(5, 10));
}

#[test]
fn set_center_then_center_gives_the_point() {
    let mut r = rect(0, 0, 10, 20);
    r.set_center(point(50, 60));
    assert_eq!(r, rect(45, 50, 10, 20));
    assert_eq!(r.center(), point(50, 60));

    let mut m = rect(0, 0, -10, -20);
    m.set_center(point(50, 60));
    assert_eq!(m, rect(55, 70, -10, -20));
    assert_eq!(m.center(), point(50, 60));
}

#[test]
fn set_center_with_an_odd_width_is_off_by_at_most_one_millionth() {
    let mut r = Rect { x: fx(0), y: fx(0), w: Fixed::from_raw(3), h: Fixed::from_raw(-3) };
    r.set_center(Vector2 { x: Fixed::from_raw(-10), y: Fixed::from_raw(10) });
    assert_eq!(r.x, Fixed::from_raw(-11));
    assert_eq!(r.y, Fixed::from_raw(11));
    assert_eq!(r.center(), Vector2 { x: Fixed::from_raw(-9), y: Fixed::from_raw(9) });
}

#[test]
fn intersection_is_symmetric() {
    let a = rect(0, 0, 10, 10);
    let b = rect(5, 5, 10, 10);
    let c = rect(20, 20, 1, 1);
    assert_eq!(a.intersects(b), b.intersects(a));
    assert_eq!(a.intersects(c), c.intersects(a));
    assert!(a.intersects(a));
}

#[test]
fn rectangles_that_share_an_edge_intersect() {
    let a = rect(0, 0, 10, 10);
    let right_neighbour = rect(10, 2, 5, 5);
    let lower_neighbour = rect(2, 10, 5, 5);
    let corner = rect(10, 10, 5, 5);
    assert!(a.intersects(right_neighbour));
    assert!(right_neighbour.intersects(a));
    assert!(a.intersects(lower_neighbour));
    assert!(a.intersects(corner));
}

#[test]
fn intersection_rectangle() {
    let a = rect(0, 0, 10, 10);
    let b = rect(5, 8, 10, 10);
    assert_eq!(a.intersection(b), rect(5, 8, 5, 2));
    assert_eq!(b.intersection(a), rect(5, 8, 5, 2));
    let mirrored = rect(15, 18, -10, -10);
    assert_eq!(a.intersection(mirrored), rect(5, 8, 5, 2));
}

#[test]
fn new_keeps_the_fields() {
    assert_eq!(Rect::new(fx(1), fx(2), fx(3), fx(4)), rect(1, 2, 3, 4));
}
