use game_core::game_object::behaviour::BehaviourSpeed;
use game_core::geometry::neighbours;
use game_core::math::fixed::Fixed;
use game_core::math::vector2::Vector2;
use game_core::serialization::{AssetColor, AssetSize};
use game_core::util::random;

fn fx(n: i32) -> Fixed {
    Fixed::from_int(n)
}

#[test]
fn random_lies_between_the_ends() {
    assert_eq!(random(fx(10), fx(20), fx(0)), fx(10));
    assert_eq!(random(fx(10), fx(20), fx(1)), fx(20));
    assert_eq!(random(fx(10), fx(20), Fixed::from_raw(250_000)), Fixed::from_raw(12_500_000));
    assert_eq!(random(fx(-10), fx(10), Fixed::from_raw(500_000)), fx(0));
    assert_eq!(random(fx(5), fx(5), Fixed::from_raw(700_000)), fx(5));
}

#[test]
fn fixed_speed_is_taken_as_it_is() {
    let v = Vector2 { x: fx(3), y: fx(-4) };
    let roll = Vector2 { x: Fixed::from_raw(123_456), y: Fixed::from_raw(654_321) };
    assert_eq!(BehaviourSpeed::Fixed(v).velocity(roll), v);
    match BehaviourSpeed::from(v) {
        BehaviourSpeed::Fixed(w) => assert_eq!(w, v),
        _ => panic!("a given speed"),
    }
}

#[test]
fn random_speed_is_picked_on_each_axis() {
    let speed = BehaviourSpeed::Random {
        min: Vector2 { x: fx(0), y: fx(-100) },
        max: Vector2 { x: fx(50), y: fx(100) },
    };
    let roll = Vector2 { x: Fixed::from_raw(500_000), y: Fixed::from_raw(250_000) };
    assert_eq!(speed.velocity(roll), Vector2 { x: fx(25), y: fx(-50) });
}

#[test]
fn neighbours_counts_the_four_places_on_the_level() {
    let set = vec![(0, 0, 1), (0, 0, -1), (1, 0, 0), (-1, 0, 0), (0, 1, 0), (1, 0, 1)];
    assert_eq!(neighbours(&(0, 0, 0), &set), 4);
    assert_eq!(neighbours(&(1, 0, 0), &set), 1);
    assert_eq!(neighbours(&(0, 1, 0), &set), 0);
    assert_eq!(neighbours(&(5, 0, 5), &set), 0);
    assert_eq!(neighbours(&(0, 0, 0), &Vec::new()), 0);
    // a place that is named twice counts once
    let twice = vec![(0, 0, 1), (0, 0, 1)];
    assert_eq!(neighbours(&(0, 0, 0), &twice), 1);
}

#[test]
fn asset_values() {
    assert_eq!(AssetColor::magenta(), AssetColor { r: 255, g: 0, b: 255, a: 255 });
    assert_eq!(AssetColor::default(), AssetColor { r: 0, g: 0, b: 0, a: 0 });
    assert_eq!(AssetSize::default(), AssetSize { w: fx(0), h: fx(0) });
}
