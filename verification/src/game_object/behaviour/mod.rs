pub mod collision;
pub mod controllable;
pub mod dvd;
pub mod physics;

use crate::actions::ActionSet;
use crate::game_object::behaviour::collision::CollisionBehaviour;
use crate::game_object::behaviour::controllable::ControllableBehaviour;
use crate::game_object::behaviour::dvd::DvdBehaviour;
use crate::game_object::behaviour::physics::PhysicsBehaviour;
use crate::game_object::{BoundInfo, CollisionInfo, PhysicsVector};
use crate::math::bounds::Rect;
use crate::math::fixed::Fixed;
use crate::math::vector2::Vector2;
use crate::serialization::AssetId;
use crate::util::{between, random};
use vstd::prelude::*;

verus! {

/// The speed that a mover starts with: a given one, or one that chance
/// picks between two.
#[derive(Debug, Clone, Copy)]
pub enum BehaviourSpeed {
    Fixed(PhysicsVector),
    Random { min: PhysicsVector, max: PhysicsVector },
}

impl BehaviourSpeed {
    /// The speed that `roll` picks: the given one, or on each axis the
    /// value that lies the fraction `roll` of the way from `min` to `max`.
    pub open spec fn spec_velocity(self, roll: PhysicsVector) -> PhysicsVector {
        match self {
            BehaviourSpeed::Fixed(v) => v,
            BehaviourSpeed::Random { min, max } => Vector2 {
                x: between(min.x, max.x, roll.x),
                y: between(min.y, max.y, roll.y),
            },
        }
    }

    /// The speed to start with. `roll` holds, for each axis, a fraction
    /// from zero to one that the caller has drawn from its source of
    /// chance.
    pub fn velocity(self, roll: PhysicsVector) -> (r: PhysicsVector)
        ensures
            r == self.spec_velocity(roll),
    {
        match self {
            BehaviourSpeed::Fixed(v) => v,
            BehaviourSpeed::Random { min, max } => Vector2 {
                x: random(min.x, max.x, roll.x),
                y: random(min.y, max.y, roll.y),
            },
        }
    }
}

impl vstd::std_specs::convert::FromSpecImpl<PhysicsVector> for BehaviourSpeed {
    open spec fn obeys_from_spec() -> bool {
        true
    }

    open spec fn from_spec(value: PhysicsVector) -> BehaviourSpeed {
        BehaviourSpeed::Fixed(value)
    }
}

impl From<PhysicsVector> for BehaviourSpeed {
    fn from(value: PhysicsVector) -> (r: BehaviourSpeed) {
        BehaviourSpeed::Fixed(value)
    }
}

/// What one stage of an entity's chain is given.
#[derive(Debug, Clone, Copy)]
pub struct BehaviourParameter<'a> {
    pub id: AssetId,
    /// The entity's rectangle, as the stages before this one left it.
    pub bounds: Rect,
    pub actions: ActionSet,
    pub world_bounds: Rect,
    /// Every entity of the world as it was before the frame began.
    pub other_bounds: &'a Vec<BoundInfo>,
    /// The contacts found by the last collision stage of this frame.
    pub collisions: &'a Vec<CollisionInfo>,
    /// The force that the stage just before this one put out.
    pub force: Option<PhysicsVector>,
    /// The impulse that the stage just before this one put out.
    pub impulse: Option<PhysicsVector>,
}

/// What one stage of an entity's chain puts out.
#[derive(Debug, Clone)]
pub struct BehaviourResult {
    pub bounds: Option<Rect>,
    pub collisions: Option<Vec<CollisionInfo>>,
    pub force: Option<PhysicsVector>,
    pub impulse: Option<PhysicsVector>,
}

/// The input of a stage as the contracts see it.
pub struct StageInput {
    pub id: AssetId,
    pub bounds: Rect,
    pub actions: ActionSet,
    pub world_bounds: Rect,
    pub other_bounds: Seq<BoundInfo>,
    pub collisions: Seq<CollisionInfo>,
    pub force: Option<PhysicsVector>,
    pub impulse: Option<PhysicsVector>,
}

/// The output of a stage as the contracts see it.
pub struct StageOutput {
    pub bounds: Option<Rect>,
    pub collisions: Option<Seq<CollisionInfo>>,
    pub force: Option<PhysicsVector>,
    pub impulse: Option<PhysicsVector>,
}

impl<'a> View for BehaviourParameter<'a> {
    type V = StageInput;

    open spec fn view(&self) -> StageInput {
        StageInput {
            id: self.id,
            bounds: self.bounds,
            actions: self.actions,
            world_bounds: self.world_bounds,
            other_bounds: self.other_bounds@,
            collisions: self.collisions@,
            force: self.force,
            impulse: self.impulse,
        }
    }
}

impl View for BehaviourResult {
    type V = StageOutput;

    open spec fn view(&self) -> StageOutput {
        StageOutput {
            bounds: self.bounds,
            collisions: match self.collisions {
                Some(v) => Some(v@),
                None => None,
            },
            force: self.force,
            impulse: self.impulse,
        }
    }
}

} // verus!

verus! {

/// One stage of an entity's chain.
#[derive(Debug, Clone, Copy)]
pub enum BehaviourType {
    Dvd(DvdBehaviour),
    Controllable(ControllableBehaviour),
    Collision(CollisionBehaviour),
    Physics(PhysicsBehaviour),
}

impl BehaviourType {
    /// Whether the stage can run: a body that physics moves has a mass
    /// above zero.
    pub open spec fn wf(self) -> bool {
        match self {
            BehaviourType::Physics(b) => b.mass@ > 0,
            _ => true,
        }
    }

    /// The stage after a tick.
    pub open spec fn spec_next(self, input: StageInput, delta_t: Fixed) -> BehaviourType {
        match self {
            BehaviourType::Dvd(b) => BehaviourType::Dvd(b.spec_next(input, delta_t)),
            BehaviourType::Controllable(b) => BehaviourType::Controllable(
                b.spec_next(input, delta_t),
            ),
            BehaviourType::Collision(b) => BehaviourType::Collision(b),
            BehaviourType::Physics(b) => BehaviourType::Physics(b.spec_next(input, delta_t)),
        }
    }

    /// What the stage puts out in a tick.
    pub open spec fn spec_tick(self, input: StageInput, delta_t: Fixed) -> StageOutput {
        match self {
            BehaviourType::Dvd(b) => b.spec_tick(input, delta_t),
            BehaviourType::Controllable(b) => b.spec_tick(input),
            BehaviourType::Collision(b) => b.spec_tick(input),
            BehaviourType::Physics(b) => b.spec_tick(input, delta_t),
        }
    }

    /// Runs the behaviour that the stage holds.
    pub fn tick(&mut self, params: BehaviourParameter, delta_t: Fixed) -> (result:
        BehaviourResult)
        requires
            old(self).wf(),
        ensures
            *final(self) == old(self).spec_next(params@, delta_t),
            result@ == old(self).spec_tick(params@, delta_t),
            final(self).wf(),
    {
        match self {
            BehaviourType::Physics(behavior) => behavior.tick(params, delta_t),
            BehaviourType::Dvd(behavior) => behavior.tick(params, delta_t),
            BehaviourType::Controllable(behavior) => behavior.tick(params, delta_t),
            BehaviourType::Collision(behavior) => behavior.tick(params, delta_t),
        }
    }
}

} // verus!
