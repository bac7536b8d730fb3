use game_core::math::fixed::Fixed;
use game_core::math::vector2::Vector2;
use game_core::math::VectorOps;

fn fx(n: i32) -> Fixed {
    Fixed::from_int(n)
}

#[test]
fn test_add() {
    let v1 = Vector2 { x: 3.0, y: 4.0 };
    let v2 = Vector2 { x: 7.0, y: 6.0 };

    let res = v1 + v2;

    assert_eq!(res, Vector2 { x: 10., y: 10. });
}

#[test]
fn test_normal() {
    let v1 = Vector2 { x: fx(3), y: fx(4) };
    let v2 = Vector2 { x: fx(-3), y: fx(-4) };

    let res1 = v1.normal();
    let res2 = v2.normal();

    assert_eq!(fx(1), res1.len());
    assert_eq!(fx(1), res2.len());
}

#[test]
fn normal_of_three_four_is_six_tenths_eight_tenths() {
    let v = Vector2 { x: fx(3), y: fx(4) };
    assert_eq!(v.len(), fx(5));
    assert_eq!(v.normal(), Vector2 { x: Fixed::from_raw(600_000), y: Fixed::from_raw(800_000) });
}

#[test]
fn add_fixed_vectors() {
    let v1 = Vector2 { x: fx(3), y: fx(4) };
    let v2 = Vector2 { x: fx(7), y: fx(6) };
    assert_eq!(v1 + v2, Vector2 { x: fx(10), y: fx(10) });
}

#[test]
fn sub_and_neg() {
    let v1 = Vector2 { x: 3, y: 4 };
    let v2 = Vector2 { x: 7, y: 6 };
    assert_eq!(v1 - v2, Vector2 { x: -4, y: -2 });
    assert_eq!(-v1, Vector2 { x: -3, y: -4 });
}

#[test]
fn scale_and_divide() {
    let v = Vector2 { x: 6, y: -4 };
    assert_eq!(v * 3, Vector2 { x: 18, y: -12 });
    assert_eq!(v / 2, Vector2 { x: 3, y: -2 });
}

#[test]
fn dot_product() {
    let v1 = Vector2 { x: 3, y: 4 };
    let v2 = Vector2 { x: 7, y: 6 };
    assert_eq!(v1 * v2, 45);
}

#[test]
fn compound_assignments() {
    let mut v = Vector2 { x: 3, y: 4 };
    v += Vector2 { x: 1, y: 1 };
    assert_eq!(v, Vector2 { x: 4, y: 5 });
    v -= Vector2 { x: 2, y: 2 };
    assert_eq!(v, Vector2 { x: 2, y: 3 });
    v *= 4;
    assert_eq!(v, Vector2 { x: 8, y: 12 });
    v /= 2;
    assert_eq!(v, Vector2 { x: 4, y: 6 });
}

#[test]
fn units() {
    assert_eq!(Vector2::<i8>::unit(), Vector2 { x: 1i8, y: 1i8 });
    assert_eq!(Vector2::<i16>::unit(), Vector2 { x: 1i16, y: 1i16 });
    assert_eq!(Vector2::<i32>::unit(), Vector2 { x: 1i32, y: 1i32 });
    assert_eq!(Vector2::<i64>::unit(), Vector2 { x: 1i64, y: 1i64 });
    assert_eq!(Vector2::<Fixed>::unit(), Vector2 { x: fx(1), y: fx(1) });
    assert_eq!(Vector2::<Fixed>::zero(), Vector2 { x: fx(0), y: fx(0) });
}

#[test]
fn length_saturates() {
    let v = Vector2 { x: Fixed::from_raw(i64::MIN), y: Fixed::from_raw(i64::MIN) };
    assert_eq!(v.len(), Fixed::from_raw(i64::MAX));
}
