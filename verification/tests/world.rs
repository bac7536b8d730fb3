use game_core::actions::{Action, ActionSet};
use game_core::game_object::behaviour::collision::CollisionBehaviour;
use game_core::game_object::behaviour::controllable::ControllableBehaviour;
use game_core::game_object::behaviour::dvd::DvdBehaviour;
use game_core::game_object::behaviour::physics::PhysicsBehaviour;
use game_core::game_object::behaviour::BehaviourType;
use game_core::game_object::drawable::{DrawLayer, Drawable};
use game_core::game_object::world::World;
use game_core::game_object::GameObject;
use game_core::math::bounds::{Bounds, Rect};
use game_core::math::fixed::Fixed;
use game_core::math::vector2::Vector2;
use game_core::serialization::level::{LevelData, Player};
use game_core::serialization::{AssetColor, AssetSize};

fn fx(n: i32) -> Fixed {
    Fixed::from_int(n)
}

fn raw(n: i64) -> Fixed {
    Fixed::from_raw(n)
}

fn rect(x: i32, y: i32, w: i32, h: i32) -> Rect {
    Rect { x: fx(x), y: fx(y), w: fx(w), h: fx(h) }
}

fn vec2(x: i32, y: i32) -> Vector2<Fixed> {
    Vector2 { x: fx(x), y: fx(y) }
}

fn drawn(z: DrawLayer) -> Option<Drawable> {
    Some(Drawable { z, color: None, texture_id: None, tint_texture: false })
}

fn object(id: i32, bounds: Rect, z: DrawLayer, behaviours: Vec<BehaviourType>) -> GameObject {
    GameObject { id, bounds, mask: 0, drawable: drawn(z), behaviours }
}

fn ids(world: &World) -> Vec<i32> {
    world.game_objects().iter().map(|o| o.id).collect()
}

fn physics_speed(object: &GameObject) -> Vector2<Fixed> {
    for b in &object.behaviours {
        if let BehaviourType::Physics(p) = b {
            return p.speed;
        }
    }
    panic!("no physics")
}

#[test]
fn new_world_is_empty() {
    let world = World::new(fx(200), fx(100));
    assert_eq!(world.bounds(), rect(0, 0, 200, 100));
    assert!(world.game_objects().is_empty());
    assert!(world.get_drawables().is_empty());
}

#[test]
fn new_game_object_has_the_default_drawable_and_no_behaviours() {
    let o = GameObject::new(7);
    assert_eq!(o.id, 7);
    assert_eq!(o.bounds, rect(0, 0, 0, 0));
    assert_eq!(o.mask, 0);
    assert_eq!(o.drawable, Some(Drawable::default()));
    assert_eq!(
        Drawable::default(),
        Drawable { z: DrawLayer::Background(0), color: None, texture_id: None, tint_texture: false }
    );
    assert!(o.behaviours.is_empty());
}

#[test]
fn entities_stand_in_draw_order() {
    let mut world = World::new(fx(200), fx(200));
    world.add_game_object(object(1, rect(0, 0, 1, 1), DrawLayer::Foreground(1), vec![]));
    world.add_game_object(object(2, rect(0, 0, 1, 1), DrawLayer::Background(5), vec![]));
    world.add_game_object(object(3, rect(0, 0, 1, 1), DrawLayer::Foreground(-3), vec![]));
    world.add_game_object(object(4, rect(0, 0, 1, 1), DrawLayer::Background(-1), vec![]));
    world.add_game_object(object(5, rect(0, 0, 1, 1), DrawLayer::Background(5), vec![]));
    let mut hidden = GameObject::new(6);
    hidden.drawable = None;
    world.add_game_object(hidden);
    assert_eq!(ids(&world), vec![6, 4, 2, 5, 3, 1]);
}

#[test]
fn draw_layers_compare_as_they_are_drawn() {
    assert!(DrawLayer::Background(100) < DrawLayer::Foreground(-100));
    assert!(DrawLayer::Foreground(0) > DrawLayer::Background(0));
    assert!(DrawLayer::Background(1) < DrawLayer::Background(2));
    assert!(DrawLayer::Foreground(3) > DrawLayer::Foreground(2));
    assert!(DrawLayer::Foreground(3) == DrawLayer::Foreground(3));
    assert!(DrawLayer::Background(1).below_or_same(DrawLayer::Background(1)));
    assert!(DrawLayer::Background(9).below_or_same(DrawLayer::Foreground(1)));
    assert!(!DrawLayer::Foreground(1).below_or_same(DrawLayer::Background(9)));
    let mut layers = vec![
        DrawLayer::Foreground(1),
        DrawLayer::Background(5),
        DrawLayer::Foreground(-3),
        DrawLayer::Background(-1),
    ];
    layers.sort();
    assert_eq!(
        layers,
        vec![
            DrawLayer::Background(-1),
            DrawLayer::Background(5),
            DrawLayer::Foreground(-3),
            DrawLayer::Foreground(1),
        ]
    );
}

#[test]
fn drawables_are_those_in_view() {
    let mut world = World::new(fx(200), fx(200));
    world.add_game_object(object(1, rect(10, 10, 5, 5), DrawLayer::Foreground(1), vec![]));
    world.add_game_object(object(2, rect(300, 10, 5, 5), DrawLayer::Background(1), vec![]));
    world.add_game_object(object(3, rect(200, 200, 5, 5), DrawLayer::Background(2), vec![]));
    let mut hidden = GameObject::new(4);
    hidden.drawable = None;
    hidden.bounds = rect(10, 10, 5, 5);
    world.add_game_object(hidden);
    let shown = world.get_drawables();
    assert_eq!(shown.len(), 2);
    assert_eq!(shown[0].0, rect(200, 200, 5, 5));
    assert_eq!(shown[0].1.z, DrawLayer::Background(2));
    assert_eq!(shown[1].0, rect(10, 10, 5, 5));
    assert_eq!(shown[1].1.z, DrawLayer::Foreground(1));
}

#[test]
fn empty_chain_leaves_the_entity_where_it_is() {
    let mut world = World::new(fx(200), fx(200));
    world.add_game_object(object(1, rect(10, 10, 5, 5), DrawLayer::Foreground(1), vec![]));
    world.tick(fx(1), ActionSet::empty());
    assert_eq!(world.game_objects()[0].bounds, rect(10, 10, 5, 5));
}

#[test]
fn dvd_entity_stays_in_the_world() {
    let mut world = World::new(fx(200), fx(200));
    let dvd = BehaviourType::Dvd(DvdBehaviour { bounds: None, speed: vec2(50, 0) });
    world.add_game_object(object(1, rect(5, 5, 10, 10), DrawLayer::Background(0), vec![dvd]));
    assert_eq!(world.game_objects()[0].bounds.center(), vec2(10, 10));
    let mut xs = Vec::new();
    for _ in 0..12 {
        world.tick(fx(1), ActionSet::empty());
        let c = world.game_objects()[0].bounds.center();
        assert!(c.x >= fx(0) && c.x <= fx(200));
        assert_eq!(c.y, fx(10));
        xs.push(c.x);
    }
    let expected: Vec<Fixed> =
        [60, 110, 160, 200, 150, 100, 50, 0, 0, 50, 100, 150].iter().map(|x| fx(*x)).collect();
    assert_eq!(xs, expected);
}

#[test]
fn a_time_step_of_zero_skips_the_frame() {
    let mut world = World::new(fx(200), fx(200));
    let dvd = BehaviourType::Dvd(DvdBehaviour { bounds: None, speed: vec2(50, 0) });
    let physics = BehaviourType::Physics(PhysicsBehaviour {
        bounds: None,
        speed: vec2(0, 0),
        mass: fx(1),
    });
    world.add_game_object(object(1, rect(5, 5, 11, 11), DrawLayer::Background(0), vec![dvd]));
    world.add_game_object(object(2, rect(50, 50, 10, 10), DrawLayer::Background(0), vec![physics]));
    world.tick(fx(0), ActionSet::empty());
    world.tick(fx(-1), ActionSet::empty());
    assert_eq!(world.game_objects()[0].bounds, rect(5, 5, 11, 11));
    assert_eq!(world.game_objects()[1].bounds, rect(50, 50, 10, 10));
    assert_eq!(physics_speed(&world.game_objects()[1]), vec2(0, 0));
}

#[test]
fn every_entity_sees_the_others_as_they_were_before_the_frame() {
    // a platform that moves out of reach in this frame, and is ticked first
    let mut world = World::new(fx(1000), fx(1000));
    let platform = object(
        1,
        rect(0, 20, 100, 10),
        DrawLayer::Background(0),
        vec![BehaviourType::Dvd(DvdBehaviour { bounds: None, speed: vec2(0, 500) })],
    );
    // a body that stands two pixels deep in the platform
    let body = object(
        2,
        rect(0, 10, 10, 12),
        DrawLayer::Foreground(0),
        vec![
            BehaviourType::Collision(CollisionBehaviour::new()),
            BehaviourType::Physics(PhysicsBehaviour { bounds: None, speed: vec2(0, 0), mass: fx(1) }),
        ],
    );
    world.add_game_object(body);
    world.add_game_object(platform);
    assert_eq!(ids(&world), vec![1, 2]);
    world.tick(raw(16_000), ActionSet::empty());
    let objects = world.game_objects();
    // the platform has left
    assert_eq!(objects[0].bounds, rect(0, 28, 100, 10));
    // the body still stood on it: its fall was stopped
    assert_eq!(physics_speed(&objects[1]), vec2(0, 0));
    assert_eq!(objects[1].bounds, rect(0, 10, 10, 12));
    // in the next frame the platform is gone and the body falls
    world.tick(raw(16_000), ActionSet::empty());
    assert!(physics_speed(&world.game_objects()[1]).y > fx(0));
}

fn player_on_floor() -> World {
    let mut world = World::new(fx(640), fx(480));
    let floor = object(1, rect(0, 400, 640, 20), DrawLayer::Background(0), vec![]);
    let player = object(
        -1,
        rect(100, 370, 32, 32),
        DrawLayer::Foreground(100),
        vec![
            BehaviourType::Collision(CollisionBehaviour::new()),
            BehaviourType::Controllable(ControllableBehaviour::new(fx(5), fx(15))),
            BehaviourType::Physics(PhysicsBehaviour::new(rect(0, 0, 640, 480), vec2(0, 0), fx(2))),
        ],
    );
    world.add_game_object(floor);
    world.add_game_object(player);
    world
}

#[test]
fn player_jumps_from_the_floor_and_comes_down_again() {
    let mut world = player_on_floor();
    let mut jump = ActionSet::empty();
    jump.insert(Action::Jump);
    let dt = raw(16_000);

    world.tick(dt, jump);
    let player = &world.game_objects()[1];
    assert_eq!(player.id, -1);
    let v = physics_speed(player);
    // -15 / 2 + 9.80665 * 0.016, rounded toward zero
    assert_eq!(v, Vector2 { x: fx(0), y: raw(-7_343_094) });
    assert!(v.y < fx(0));
    assert!(player.bounds.center().y < fx(386));

    let mut last = v.y;
    let mut turned = false;
    for _ in 0..80 {
        world.tick(dt, jump);
        let now = physics_speed(&world.game_objects()[1]).y;
        if now > fx(0) {
            turned = true;
            break;
        }
        assert!(now > last);
        last = now;
    }
    assert!(turned);
}

#[test]
fn player_standing_on_the_floor_does_not_sink() {
    let mut world = player_on_floor();
    for _ in 0..10 {
        world.tick(raw(16_000), ActionSet::empty());
        let player = &world.game_objects()[1];
        assert_eq!(physics_speed(player).y, fx(0));
        assert_eq!(player.bounds, rect(100, 370, 32, 32));
    }
    // the floor has no behaviours and stays
    assert_eq!(world.game_objects()[0].bounds, rect(0, 400, 640, 20));
}

#[test]
fn load_level_adds_the_player_and_orders_the_entities() {
    let level = LevelData {
        name: String::from("first"),
        start: vec2(30, 40),
        bounds: rect(0, 0, 800, 600),
        player: Player { texture_id: 3, size: AssetSize { w: fx(32), h: fx(48) } },
        objects: vec![
            object(1, rect(0, 0, 1, 1), DrawLayer::Foreground(200), vec![]),
            object(2, rect(0, 0, 1, 1), DrawLayer::Background(5), vec![]),
            object(3, rect(0, 0, 1, 1), DrawLayer::Foreground(100), vec![]),
        ],
    };
    let mut world = World::new(fx(1), fx(1));
    world.add_game_object(object(9, rect(0, 0, 1, 1), DrawLayer::Background(0), vec![]));
    world.load_level(&level);
    assert_eq!(world.bounds(), rect(0, 0, 800, 600));
    assert_eq!(ids(&world), vec![2, 3, -1, 1]);
    let player = &world.game_objects()[2];
    assert_eq!(player.bounds, rect(30, 40, 32, 48));
    assert_eq!(player.mask, 0);
    assert_eq!(
        player.drawable,
        Some(Drawable {
            z: DrawLayer::Foreground(100),
            color: Some(AssetColor { r: 255, g: 0, b: 255, a: 255 }),
            texture_id: Some(3),
            tint_texture: true,
        })
    );
    assert_eq!(player.behaviours.len(), 3);
    match player.behaviours[0] {
        BehaviourType::Collision(c) => assert_eq!(c.mask, 0),
        _ => panic!("collision comes first"),
    }
    match player.behaviours[1] {
        BehaviourType::Controllable(c) => {
            assert_eq!(c.speed, fx(5));
            assert_eq!(c.run_speed, fx(15));
            assert_eq!(c.jumping, fx(0));
        }
        _ => panic!("controllable comes second"),
    }
    match player.behaviours[2] {
        BehaviourType::Physics(p) => {
            assert_eq!(p.bounds, Some(rect(0, 0, 800, 600)));
            assert_eq!(p.speed, vec2(0, 0));
            assert_eq!(p.mass, fx(2));
        }
        _ => panic!("physics comes last"),
    }
}

#[test]
fn clone_of_a_game_object_is_equal_in_every_field() {
    let dvd = BehaviourType::Dvd(DvdBehaviour { bounds: None, speed: vec2(50, 0) });
    let o = object(1, rect(5, 5, 10, 10), DrawLayer::Background(0), vec![dvd]);
    let c = o.clone();
    assert_eq!(c.id, 1);
    assert_eq!(c.bounds, o.bounds);
    assert_eq!(c.mask, o.mask);
    assert_eq!(c.drawable, o.drawable);
    assert_eq!(c.behaviours.len(), 1);
    match c.behaviours[0] {
        BehaviourType::Dvd(d) => assert_eq!(d.speed, vec2(50, 0)),
        _ => panic!("dvd"),
    }
}

#[test]
fn game_object_tick_hands_bounds_from_stage_to_stage() {
    // the first mover puts the center at x = 60, the second moves on from there
    let mut o = object(
        1,
        rect(5, 5, 10, 10),
        DrawLayer::Background(0),
        vec![
            BehaviourType::Dvd(DvdBehaviour { bounds: None, speed: vec2(50, 0) }),
            BehaviourType::Dvd(DvdBehaviour { bounds: None, speed: vec2(0, 30) }),
        ],
    );
    let others = Vec::new();
    o.tick(fx(1), rect(0, 0, 200, 200), ActionSet::empty(), &others);
    assert_eq!(o.bounds.center(), vec2(60, 40));
}

#[test]
fn force_of_an_earlier_stage_is_replaced_not_added() {
    // the drive of the controllable stage reaches physics only if no stage
    // stands between them: a collision stage in between puts out no force
    let chain = |between: bool| {
        let mut behaviours =
            vec![BehaviourType::Controllable(ControllableBehaviour::new(fx(4), fx(15)))];
        if between {
            behaviours.push(BehaviourType::Collision(CollisionBehaviour::new()));
        }
        behaviours.push(BehaviourType::Physics(PhysicsBehaviour {
            bounds: None,
            speed: vec2(0, 0),
            mass: fx(2),
        }));
        object(1, rect(5, 5, 10, 10), DrawLayer::Background(0), behaviours)
    };
    let mut right = ActionSet::empty();
    right.insert(Action::MoveRight);
    let others = Vec::new();

    let mut direct = chain(false);
    direct.tick(fx(1), rect(0, 0, 2000, 2000), right, &others);
    assert_eq!(physics_speed(&direct).x, fx(2));

    let mut broken = chain(true);
    broken.tick(fx(1), rect(0, 0, 2000, 2000), right, &others);
    assert_eq!(physics_speed(&broken).x, fx(0));
}
