use crate::actions::ActionSet;
use crate::game_object::behaviour::collision::CollisionBehaviour;
use crate::game_object::behaviour::controllable::ControllableBehaviour;
use crate::game_object::behaviour::physics::PhysicsBehaviour;
use crate::game_object::behaviour::BehaviourType;
use crate::game_object::drawable::{DrawLayer, Drawable};
use crate::game_object::{ticked, BoundInfo, EntityState, Frame, GameObject};
use crate::math::bounds::{Bounds, Rect};
use crate::math::fixed::Fixed;
use crate::math::vector2::Vector2;
use crate::serialization::level::LevelData;
use crate::serialization::AssetColor;
use vstd::prelude::*;

verus! {

/// What happens to an entity at a border of the world.
#[derive(PartialEq, Eq, Debug, Default, Clone, Copy, Structural)]
pub enum BorderType {
    #[default]
    Solid,
    Fatal,
}

/// The four borders of the world.
#[derive(PartialEq, Eq, Debug, Default, Clone, Copy, Structural)]
pub struct Borders {
    pub top: BorderType,
    pub bottom: BorderType,
    pub left: BorderType,
    pub right: BorderType,
}

/// The walking speed of the player's entity, in millionths.
pub const PLAYER_SPEED: i64 = 5_000_000;

/// The running speed of the player's entity, in millionths.
pub const PLAYER_RUN_SPEED: i64 = 15_000_000;

/// The mass of the player's entity, in millionths.
pub const PLAYER_MASS: i64 = 2_000_000;

/// The number of the player's entity.
pub const PLAYER_ID: i32 = -1;

/// The entities of a level, their order of drawing, and the rectangle
/// that they live in.
pub struct World {
    bounds: Rect,
    borders: Borders,
    game_objects: Vec<GameObject>,
}

/// A world as the contracts see it.
pub struct WorldState {
    pub bounds: Rect,
    pub objects: Seq<EntityState>,
}

/// The layer an entity is drawn on, if it is drawn at all.
pub open spec fn layer_of(entity: EntityState) -> Option<DrawLayer> {
    match entity.drawable {
        Some(d) => Some(d.z),
        None => None,
    }
}

/// Whether an entity on `a` comes before one on `b` in the world's order,
/// or may stand at either side of it: what is not drawn comes first, then
/// the layers from the lowest up.
pub open spec fn layer_le(a: Option<DrawLayer>, b: Option<DrawLayer>) -> bool {
    match (a, b) {
        (None, _) => true,
        (Some(_), None) => false,
        (Some(x), Some(y)) => x.spec_below_or_same(y),
    }
}

/// Whether the entities stand in the order of their layers.
pub open spec fn in_draw_order(objects: Seq<EntityState>) -> bool {
    forall|i: int, j: int|
        0 <= i < j < objects.len() ==> layer_le(
            layer_of(#[trigger] objects[i]),
            layer_of(#[trigger] objects[j]),
        )
}

/// Where an entity on `layer` is put among `objects`: behind the last
/// entity that does not lie above it.
pub open spec fn slot_for(objects: Seq<EntityState>, layer: Option<DrawLayer>) -> int
    decreases objects.len(),
{
    if objects.len() == 0 {
        0
    } else if layer_le(layer_of(objects.last()), layer) {
        objects.len() as int
    } else {
        slot_for(objects.drop_last(), layer)
    }
}

/// `objects` with `entity` put in its place.
pub open spec fn with_entity(objects: Seq<EntityState>, entity: EntityState) -> Seq<EntityState> {
    objects.insert(slot_for(objects, layer_of(entity)), entity)
}

/// `objects` in the order of their layers; entities of the same layer keep
/// the order that they had.
pub open spec fn draw_ordered(objects: Seq<EntityState>) -> Seq<EntityState>
    decreases objects.len(),
{
    if objects.len() == 0 {
        Seq::empty()
    } else {
        with_entity(draw_ordered(objects.drop_last()), objects.last())
    }
}

/// What the world knows of each entity before a frame.
pub open spec fn snapshot(objects: Seq<EntityState>) -> Seq<BoundInfo> {
    Seq::new(objects.len(), |i: int| (objects[i].id, objects[i].bounds, objects[i].mask))
}

/// The entities that are drawn, each with its rectangle, in their order:
/// those that have something to draw and whose rectangle intersects
/// `view`.
pub open spec fn visible_among(objects: Seq<EntityState>, view: Rect) -> Seq<(Rect, Drawable)>
    decreases objects.len(),
{
    if objects.len() == 0 {
        Seq::empty()
    } else {
        let before = visible_among(objects.drop_last(), view);
        let entity = objects.last();
        match entity.drawable {
            Some(d) => if entity.bounds.spec_intersects(view) {
                before.push((entity.bounds, d))
            } else {
                before
            },
            None => before,
        }
    }
}

/// The player's entity of a level whose world reaches as far as `bounds`.
pub open spec fn player_of(level: LevelData, bounds: Rect) -> EntityState {
    EntityState {
        id: PLAYER_ID,
        bounds: Rect {
            x: level.start.x,
            y: level.start.y,
            w: level.player.size.w,
            h: level.player.size.h,
        },
        mask: 0,
        drawable: Some(
            Drawable {
                z: DrawLayer::Foreground(100),
                color: Some(AssetColor { r: 255, g: 0, b: 255, a: 255 }),
                texture_id: Some(level.player.texture_id),
                tint_texture: true,
            },
        ),
        behaviours: seq![
            BehaviourType::Collision(CollisionBehaviour { mask: 0 }),
            BehaviourType::Controllable(
                ControllableBehaviour {
                    speed: Fixed { raw: PLAYER_SPEED },
                    run_speed: Fixed { raw: PLAYER_RUN_SPEED },
                    jumping: Fixed { raw: 0 },
                    velocity: Vector2 { x: Fixed { raw: 0 }, y: Fixed { raw: 0 } },
                    acceleration: Vector2 { x: Fixed { raw: 0 }, y: Fixed { raw: 0 } },
                },
            ),
            BehaviourType::Physics(
                PhysicsBehaviour {
                    bounds: Some(bounds),
                    speed: Vector2 { x: Fixed { raw: 0 }, y: Fixed { raw: 0 } },
                    mass: Fixed { raw: PLAYER_MASS },
                },
            ),
        ],
    }
}

/// The views of the entities of a vector.
pub open spec fn states_of(objects: Seq<GameObject>) -> Seq<EntityState> {
    Seq::new(objects.len(), |i: int| objects[i]@)
}

/// No entity at or behind the slot for a layer lies on that layer or
/// below it, and where the slot is not the first, the entity before it
/// does.
proof fn lemma_slot(objects: Seq<EntityState>, layer: Option<DrawLayer>)
    ensures
        0 <= slot_for(objects, layer) <= objects.len(),
        forall|k: int|
            slot_for(objects, layer) <= k < objects.len() ==> !layer_le(
                layer_of(#[trigger] objects[k]),
                layer,
            ),
        slot_for(objects, layer) > 0 ==> layer_le(
            layer_of(objects[slot_for(objects, layer) - 1]),
            layer,
        ),
    decreases objects.len(),
{
    if objects.len() > 0 && !layer_le(layer_of(objects.last()), layer) {
        let front = objects.drop_last();
        lemma_slot(front, layer);
        assert forall|k: int| slot_for(objects, layer) <= k < objects.len() implies !layer_le(
            layer_of(#[trigger] objects[k]),
            layer,
        ) by {
            if k < front.len() {
                assert(front[k] == objects[k]);
            }
        }
        if slot_for(objects, layer) > 0 {
            assert(front[slot_for(objects, layer) - 1] == objects[slot_for(objects, layer) - 1]);
        }
    }
}

/// Putting an entity in its place keeps the order of the layers, keeps
/// every entity that was there, and adds the one.
pub proof fn lemma_with_entity(objects: Seq<EntityState>, entity: EntityState)
    requires
        in_draw_order(objects),
    ensures
        in_draw_order(with_entity(objects, entity)),
        with_entity(objects, entity).len() == objects.len() + 1,
        with_entity(objects, entity).to_multiset() == objects.to_multiset().insert(entity),
{
    let layer = layer_of(entity);
    let slot = slot_for(objects, layer);
    let all = with_entity(objects, entity);
    lemma_slot(objects, layer);
    assert forall|i: int, j: int| 0 <= i < j < all.len() implies layer_le(
        layer_of(#[trigger] all[i]),
        layer_of(#[trigger] all[j]),
    ) by {
        if j == slot {
            if slot > 0 {
                assert(all[i] == objects[i]);
                let last_before = objects[slot - 1];
                assert(layer_le(layer_of(last_before), layer));
                if i < slot - 1 {
                    assert(layer_le(layer_of(objects[i]), layer_of(objects[slot - 1])));
                }
            }
        } else if i == slot {
            assert(all[j] == objects[j - 1]);
            assert(!layer_le(layer_of(objects[j - 1]), layer));
        } else {
            let oi = if i < slot { i } else { i - 1 };
            let oj = if j < slot { j } else { j - 1 };
            assert(all[i] == objects[oi]);
            assert(all[j] == objects[oj]);
        }
    }
    vstd::seq_lib::to_multiset_insert(objects, slot, entity);
}

/// Entities that stand in the order of their layers are left as they are.
pub proof fn lemma_draw_ordered_fixes_order(objects: Seq<EntityState>)
    requires
        in_draw_order(objects),
    ensures
        draw_ordered(objects) == objects,
    decreases objects.len(),
{
    if objects.len() > 0 {
        let front = objects.drop_last();
        assert forall|i: int, j: int| 0 <= i < j < front.len() implies layer_le(
            layer_of(#[trigger] front[i]),
            layer_of(#[trigger] front[j]),
        ) by {
            assert(front[i] == objects[i]);
            assert(front[j] == objects[j]);
        }
        lemma_draw_ordered_fixes_order(front);
        let layer = layer_of(objects.last());
        if front.len() > 0 {
            assert(front.last() == objects[front.len() - 1]);
            assert(layer_le(layer_of(objects[front.len() - 1]), layer_of(objects[objects.len() - 1])));
        }
        assert(slot_for(front, layer) == front.len());
        assert(with_entity(front, objects.last()) =~= objects);
    }
}

/// Ordering puts the entities in the order of their layers and neither
/// loses nor adds one.
pub proof fn lemma_draw_ordered(objects: Seq<EntityState>)
    ensures
        in_draw_order(draw_ordered(objects)),
        draw_ordered(objects).len() == objects.len(),
        draw_ordered(objects).to_multiset() == objects.to_multiset(),
    decreases objects.len(),
{
    if objects.len() > 0 {
        let front = objects.drop_last();
        lemma_draw_ordered(front);
        lemma_with_entity(draw_ordered(front), objects.last());
        assert(objects =~= front.push(objects.last()));
        vstd::seq_lib::to_multiset_build(front, objects.last());
    } else {
        assert(objects =~= Seq::<EntityState>::empty());
    }
}

} // verus!

verus! {

/// Whether every stage of the entity's chain can run.
pub open spec fn chain_can_run(entity: EntityState) -> bool {
    forall|i: int| 0 <= i < entity.behaviours.len() ==> (#[trigger] entity.behaviours[i]).wf()
}

/// The frame that a world in state `world` hands to its entities.
pub open spec fn frame_of(world: WorldState, delta_t: Fixed, actions: ActionSet) -> Frame {
    Frame { delta_t, world_bounds: world.bounds, actions, others: snapshot(world.objects) }
}

/// The world after one frame. Every entity has run its chain once, each
/// on the snapshot that was taken before any of them ran. A time step that
/// is not above zero leaves the world as it is.
pub open spec fn world_ticked(world: WorldState, delta_t: Fixed, actions: ActionSet) -> WorldState {
    if delta_t@ > 0 {
        WorldState {
            bounds: world.bounds,
            objects: Seq::new(
                world.objects.len(),
                |i: int| ticked(world.objects[i], frame_of(world, delta_t, actions)),
            ),
        }
    } else {
        world
    }
}

/// A frame neither adds nor removes an entity, nor changes the place, the
/// number, the mask or the drawing of one, nor the world's extent; so the
/// entities stay in the order of their layers. And what every entity was
/// shown of the others is the world as it was before the frame.
pub proof fn lemma_world_ticked_keeps_entities(
    world: WorldState,
    delta_t: Fixed,
    actions: ActionSet,
)
    ensures
        world_ticked(world, delta_t, actions).bounds == world.bounds,
        world_ticked(world, delta_t, actions).objects.len() == world.objects.len(),
        forall|i: int|
            0 <= i < world.objects.len() ==> {
                let after = #[trigger] world_ticked(world, delta_t, actions).objects[i];
                &&& after.id == world.objects[i].id
                &&& after.mask == world.objects[i].mask
                &&& after.drawable == world.objects[i].drawable
                &&& after.behaviours.len() == world.objects[i].behaviours.len()
            },
        in_draw_order(world.objects) ==> in_draw_order(
            world_ticked(world, delta_t, actions).objects,
        ),
        frame_of(world, delta_t, actions).others.len() == world.objects.len(),
        forall|i: int|
            0 <= i < world.objects.len() ==> #[trigger] frame_of(world, delta_t, actions).others[i]
                == (world.objects[i].id, world.objects[i].bounds, world.objects[i].mask),
{
    let after = world_ticked(world, delta_t, actions).objects;
    if in_draw_order(world.objects) {
        assert forall|a: int, b: int| 0 <= a < b < after.len() implies layer_le(
            layer_of(#[trigger] after[a]),
            layer_of(#[trigger] after[b]),
        ) by {
            assert(layer_le(layer_of(world.objects[a]), layer_of(world.objects[b])));
        }
    }
}

/// The layer of a drawable, if there is one.
fn layer_key(drawable: &Option<Drawable>) -> (r: Option<DrawLayer>)
    ensures
        r == match *drawable {
            Some(d) => Some(d.z),
            None => None,
        },
{
    match drawable {
        Some(d) => Some(d.z),
        None => None,
    }
}

/// Whether an entity on `a` may stand before one on `b`.
fn layer_not_above(a: Option<DrawLayer>, b: Option<DrawLayer>) -> (r: bool)
    ensures
        r == layer_le(a, b),
{
    match (a, b) {
        (None, _) => true,
        (Some(_), None) => false,
        (Some(x), Some(y)) => x.below_or_same(y),
    }
}

impl View for World {
    type V = WorldState;

    closed spec fn view(&self) -> WorldState {
        WorldState { bounds: self.bounds, objects: states_of(self.game_objects@) }
    }
}

impl World {
    /// Whether the world is in order: its entities stand in the order of
    /// their layers, and every chain can run.
    pub open spec fn wf(&self) -> bool {
        &&& in_draw_order(self@.objects)
        &&& forall|i: int| 0 <= i < self@.objects.len() ==> chain_can_run(#[trigger] self@.objects[i])
    }

    /// An empty world that reaches from the origin as far as `w` and `h`.
    pub fn new(w: Fixed, h: Fixed) -> (r: Self)
        ensures
            r@.bounds == (Rect { x: Fixed { raw: 0 }, y: Fixed { raw: 0 }, w, h }),
            r@.objects.len() == 0,
            r.wf(),
    {
        Self {
            bounds: Rect { x: Fixed::zero(), y: Fixed::zero(), w, h },
            borders: Borders {
                top: BorderType::Solid,
                bottom: BorderType::Solid,
                left: BorderType::Solid,
                right: BorderType::Solid,
            },
            game_objects: Vec::new(),
        }
    }

    /// The rectangle that the world reaches over.
    pub fn bounds(&self) -> (r: Rect)
        ensures
            r == self@.bounds,
    {
        self.bounds
    }

    /// The entities, in the order in which they are drawn.
    pub fn game_objects(&self) -> (r: &Vec<GameObject>)
        ensures
            states_of(r@) == self@.objects,
    {
        &self.game_objects
    }

    /// Puts `object` in its place among the entities.
    fn insert_in_order(&mut self, object: GameObject)
        ensures
            final(self)@.bounds == old(self)@.bounds,
            final(self)@.objects == with_entity(old(self)@.objects, object@),
    {
        let key = layer_key(&object.drawable);
        let mut slot: usize = self.game_objects.len();
        let ghost states = states_of(self.game_objects@);
        proof {
            assert(states.take(slot as int) =~= states);
        }
        while slot > 0 && !layer_not_above(layer_key(&self.game_objects[slot - 1].drawable), key)
            invariant
                slot <= self.game_objects@.len(),
                states == states_of(self.game_objects@),
                *self == *old(self),
                key == layer_of(object@),
                slot_for(states, key) == slot_for(states.take(slot as int), key),
            decreases slot,
        {
            proof {
                let upto = states.take(slot as int);
                assert(upto.last() == states[slot - 1]);
                assert(upto.drop_last() =~= states.take(slot - 1));
            }
            slot -= 1;
        }
        proof {
            let upto = states.take(slot as int);
            if slot > 0 {
                assert(upto.last() == states[slot - 1]);
            }
            assert(slot_for(states, key) == slot);
        }
        self.game_objects.insert(slot, object);
        proof {
            assert(states_of(self.game_objects@) =~= with_entity(states, object@));
        }
    }

    /// Adds an entity to the world, where its layer puts it: behind every
    /// entity that does not lie above it.
    pub fn add_game_object(&mut self, object: GameObject)
        requires
            old(self).wf(),
            object.wf(),
        ensures
            final(self)@.bounds == old(self)@.bounds,
            final(self)@.objects == with_entity(old(self)@.objects, object@),
            final(self)@.objects == draw_ordered(old(self)@.objects.push(object@)),
            final(self).wf(),
    {
        proof {
            lemma_with_entity(self@.objects, object@);
            lemma_slot(self@.objects, layer_of(object@));
            lemma_draw_ordered_fixes_order(self@.objects);
            assert(self@.objects.push(object@).drop_last() =~= self@.objects);
        }
        self.insert_in_order(object);
    }

    /// Takes the level's extent and entities, and adds the player's entity
    /// at the level's starting point.
    pub fn load_level(&mut self, level_data: &LevelData)
        requires
            forall|i: int|
                0 <= i < level_data.objects@.len() ==> (#[trigger] level_data.objects@[i]).wf(),
        ensures
            final(self)@.bounds == level_data.bounds,
            final(self)@.objects == draw_ordered(
                states_of(level_data.objects@).push(player_of(*level_data, level_data.bounds)),
            ),
            final(self).wf(),
    {
        self.game_objects = Vec::new();
        self.bounds = level_data.bounds;
        let ghost given = states_of(level_data.objects@);
        let n = level_data.objects.len();
        let mut i: usize = 0;
        while i < n
            invariant
                i <= n,
                n == level_data.objects@.len(),
                given == states_of(level_data.objects@),
                self@.bounds == level_data.bounds,
                self@.objects == draw_ordered(given.take(i as int)),
                self.wf(),
                forall|k: int|
                    0 <= k < level_data.objects@.len() ==> (#[trigger] level_data.objects@[k]).wf(),
            decreases n - i,
        {
            let object = level_data.objects[i].clone();
            proof {
                assert(object@ == given[i as int]);
                assert(level_data.objects@[i as int].wf());
                assert(object.wf()) by {
                    assert(object@.behaviours == level_data.objects@[i as int]@.behaviours);
                }
                let upto = given.take(i + 1);
                assert(upto.drop_last() =~= given.take(i as int));
                assert(upto.last() == given[i as int]);
            }
            self.add_game_object(object);
            i += 1;
        }
        proof {
            assert(given.take(n as int) =~= given);
        }

        let player_data = &level_data.player;
        let mut player = GameObject::new(PLAYER_ID);
        player.bounds = Rect {
            x: level_data.start.x,
            y: level_data.start.y,
            w: player_data.size.w,
            h: player_data.size.h,
        };
        player.drawable = Some(
            Drawable {
                z: DrawLayer::Foreground(100),
                color: Some(AssetColor::magenta()),
                texture_id: Some(player_data.texture_id),
                tint_texture: true,
            },
        );
        player.behaviours.push(BehaviourType::Collision(CollisionBehaviour::new()));
        player.behaviours.push(
            BehaviourType::Controllable(
                ControllableBehaviour::new(
                    Fixed::from_raw(PLAYER_SPEED),
                    Fixed::from_raw(PLAYER_RUN_SPEED),
                ),
            ),
        );
        player.behaviours.push(
            BehaviourType::Physics(
                PhysicsBehaviour::new(
                    self.bounds,
                    Vector2 { x: Fixed::zero(), y: Fixed::zero() },
                    Fixed::from_raw(PLAYER_MASS),
                ),
            ),
        );
        proof {
            assert(player@.behaviours =~= player_of(*level_data, level_data.bounds).behaviours);
            assert(player@ == player_of(*level_data, level_data.bounds));
            let all = given.push(player@);
            assert(all.drop_last() =~= given);
        }
        self.add_game_object(player);
    }

    /// Runs one frame: takes the snapshot of every entity, then lets each
    /// entity run its chain on it.
    pub fn tick(&mut self, delta_t: Fixed, actions: ActionSet)
        requires
            old(self).wf(),
        ensures
            final(self)@ == world_ticked(old(self)@, delta_t, actions),
            final(self).wf(),
    {
        if delta_t.raw <= 0 {
            return ;
        }
        let n = self.game_objects.len();
        let mut rects: Vec<BoundInfo> = Vec::new();
        let mut j: usize = 0;
        while j < n
            invariant
                j <= n,
                n == self.game_objects@.len(),
                *self == *old(self),
                rects@ == snapshot(self@.objects).take(j as int),
            decreases n - j,
        {
            let object = &self.game_objects[j];
            rects.push((object.id, object.bounds, object.mask));
            proof {
                assert(snapshot(self@.objects).take(j + 1) =~= snapshot(self@.objects).take(
                    j as int,
                ).push(snapshot(self@.objects)[j as int]));
            }
            j += 1;
        }
        proof {
            assert(snapshot(self@.objects).take(n as int) =~= snapshot(self@.objects));
        }
        let bounds = self.bounds;
        let ghost before = self@;
        let ghost frame = frame_of(before, delta_t, actions);
        let mut i: usize = 0;
        while i < n
            invariant
                i <= n,
                n == self.game_objects@.len(),
                n == before.objects.len(),
                before == old(self)@,
                before.bounds == bounds,
                self@.bounds == bounds,
                frame == frame_of(before, delta_t, actions),
                rects@ == frame.others,
                forall|k: int| 0 <= k < before.objects.len() ==> chain_can_run(#[trigger] before.objects[k]),
                forall|k: int| 0 <= k < i ==> #[trigger] self@.objects[k] == ticked(before.objects[k], frame),
                forall|k: int| i <= k < n ==> #[trigger] self@.objects[k] == before.objects[k],
            decreases n - i,
        {
            proof {
                assert(self@.objects[i as int] == before.objects[i as int]);
                assert(chain_can_run(before.objects[i as int]));
                assert(self.game_objects@[i as int]@ == self@.objects[i as int]);
            }
            let ghost others_before = self.game_objects@;
            self.game_objects[i].tick(delta_t, bounds, actions, &rects);
            proof {
                assert forall|k: int| 0 <= k < n && k != i implies self.game_objects@[k]
                    == others_before[k] by {}
                assert forall|k: int| 0 <= k < i + 1 implies #[trigger] self@.objects[k] == ticked(
                    before.objects[k],
                    frame,
                ) by {
                    if k < i {
                        assert(self.game_objects@[k] == others_before[k]);
                        assert(states_of(others_before)[k] == ticked(before.objects[k], frame));
                    }
                }
                assert forall|k: int| i + 1 <= k < n implies #[trigger] self@.objects[k]
                    == before.objects[k] by {
                    assert(self.game_objects@[k] == others_before[k]);
                    assert(states_of(others_before)[k] == before.objects[k]);
                }
            }
            i += 1;
        }
        proof {
            let after = world_ticked(before, delta_t, actions);
            assert(self@.objects =~= after.objects);
            assert forall|a: int, b: int| 0 <= a < b < after.objects.len() implies layer_le(
                layer_of(#[trigger] after.objects[a]),
                layer_of(#[trigger] after.objects[b]),
            ) by {
                assert(layer_le(layer_of(before.objects[a]), layer_of(before.objects[b])));
            }
            assert forall|k: int| 0 <= k < after.objects.len() implies chain_can_run(
                #[trigger] after.objects[k],
            ) by {
                assert(chain_can_run(before.objects[k]));
                let e = before.objects[k];
                assert forall|m: int| 0 <= m < after.objects[k].behaviours.len() implies (
                #[trigger] after.objects[k].behaviours[m]).wf() by {
                    assert(e.behaviours[m].wf());
                }
            }
        }
    }

    /// Whether a rectangle is in view: it intersects the world's rectangle.
    fn is_visible(&self, bounds: Rect) -> (r: bool)
        ensures
            r == bounds.spec_intersects(self@.bounds),
    {
        bounds.intersects(self.bounds)
    }

    /// What is to be drawn, in the order of drawing: each entity that has
    /// something to draw and is in view, with its rectangle.
    pub fn get_drawables(&self) -> (r: Vec<(Rect, &Drawable)>)
        ensures
            r@.map_values(|p: (Rect, &Drawable)| (p.0, *p.1)) == visible_among(
                self@.objects,
                self@.bounds,
            ),
    {
        let mut vec: Vec<(Rect, &Drawable)> = Vec::new();
        let n = self.game_objects.len();
        let mut i: usize = 0;
        while i < n
            invariant
                i <= n,
                n == self.game_objects@.len(),
                vec@.map_values(|p: (Rect, &Drawable)| (p.0, *p.1)) == visible_among(
                    self@.objects.take(i as int),
                    self@.bounds,
                ),
            decreases n - i,
        {
            let game_object = &self.game_objects[i];
            proof {
                let upto = self@.objects.take(i + 1);
                assert(upto.drop_last() =~= self@.objects.take(i as int));
                assert(upto.last() == self.game_objects@[i as int]@);
            }
            if let Some(drawable) = game_object.drawable.as_ref() {
                if self.is_visible(game_object.bounds) {
                    let ghost shown = vec@.map_values(|p: (Rect, &Drawable)| (p.0, *p.1));
                    vec.push((game_object.bounds, drawable));
                    proof {
                        assert(vec@.map_values(|p: (Rect, &Drawable)| (p.0, *p.1)) =~= shown.push(
                            (game_object.bounds, *drawable),
                        ));
                    }
                }
            }
            i += 1;
        }
        proof {
            assert(self@.objects.take(n as int) =~= self@.objects);
        }
        vec
    }
}

} // verus!
