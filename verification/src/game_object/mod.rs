pub mod behaviour;
pub mod drawable;
pub mod world;

use crate::actions::ActionSet;
use crate::game_object::behaviour::dvd::{lemma_dvd_position_inside, DvdBehaviour};
use crate::game_object::behaviour::{BehaviourParameter, BehaviourType, StageInput, StageOutput};
use crate::game_object::drawable::Drawable;
use crate::math::bounds::{Bounds, Rect};
use crate::math::fixed::Fixed;
use crate::math::vector2::Vector2;
use vstd::prelude::*;

verus! {

/// A velocity, a force or an impulse.
pub type PhysicsVector = Vector2<Fixed>;

/// The groups an entity collides with, one bit for each; zero stands for
/// all of them.
pub type ObjectMask = u32;

/// What the world knows of one entity before a frame: its number, its
/// rectangle and its mask.
pub type BoundInfo = (i32, Rect, ObjectMask);

/// One contact: the other entity's number, the part that the two
/// rectangles have in common, and the other entity's mask.
pub type CollisionInfo = BoundInfo;

/// An entity of the world: a rectangle that a chain of behaviours moves.
#[derive(Debug)]
pub struct GameObject {
    pub id: i32,
    pub bounds: Rect,
    pub mask: ObjectMask,
    pub drawable: Option<Drawable>,
    pub behaviours: Vec<BehaviourType>,
}

/// An entity as the contracts see it.
pub struct EntityState {
    pub id: i32,
    pub bounds: Rect,
    pub mask: ObjectMask,
    pub drawable: Option<Drawable>,
    pub behaviours: Seq<BehaviourType>,
}

/// What is the same for every entity and every stage of one frame.
pub struct Frame {
    pub delta_t: Fixed,
    pub world_bounds: Rect,
    pub actions: ActionSet,
    /// Every entity of the world as it was before the frame began.
    pub others: Seq<BoundInfo>,
}

/// What one stage of a chain hands to the next.
pub struct Carry {
    pub bounds: Rect,
    pub collisions: Seq<CollisionInfo>,
    pub force: Option<PhysicsVector>,
    pub impulse: Option<PhysicsVector>,
}

/// What the first stage is handed: the entity's rectangle, no contacts,
/// no force and no impulse.
pub open spec fn starting_carry(bounds: Rect) -> Carry {
    Carry { bounds, collisions: Seq::empty(), force: None, impulse: None }
}

/// The input of a stage that is handed `carry`.
pub open spec fn stage_input(id: i32, carry: Carry, frame: Frame) -> StageInput {
    StageInput {
        id,
        bounds: carry.bounds,
        actions: frame.actions,
        world_bounds: frame.world_bounds,
        other_bounds: frame.others,
        collisions: carry.collisions,
        force: carry.force,
        impulse: carry.impulse,
    }
}

/// What is handed on after a stage: its rectangle and its contacts take
/// the place of the earlier ones where it put any out; its force and its
/// impulse take the place of the earlier ones in any case.
pub open spec fn carried_on(carry: Carry, output: StageOutput) -> Carry {
    Carry {
        bounds: match output.bounds {
            Some(b) => b,
            None => carry.bounds,
        },
        collisions: match output.collisions {
            Some(c) => c,
            None => carry.collisions,
        },
        force: output.force,
        impulse: output.impulse,
    }
}

/// What the chain `stages` hands on after its last stage, each stage having
/// run in its turn on what the one before handed on.
pub open spec fn carry_after(id: i32, stages: Seq<BehaviourType>, bounds: Rect, frame: Frame) -> Carry
    decreases stages.len(),
{
    if stages.len() == 0 {
        starting_carry(bounds)
    } else {
        let before = carry_after(id, stages.drop_last(), bounds, frame);
        carried_on(
            before,
            stages.last().spec_tick(stage_input(id, before, frame), frame.delta_t),
        )
    }
}

/// The stage at `index` after the chain has run.
pub open spec fn stage_after(
    id: i32,
    stages: Seq<BehaviourType>,
    bounds: Rect,
    frame: Frame,
    index: int,
) -> BehaviourType {
    stages[index].spec_next(
        stage_input(id, carry_after(id, stages.take(index), bounds, frame), frame),
        frame.delta_t,
    )
}

/// The entity after one frame: its chain has run once, in order, and its
/// rectangle is the one that the last stage handed on.
pub open spec fn ticked(entity: EntityState, frame: Frame) -> EntityState {
    EntityState {
        id: entity.id,
        bounds: carry_after(entity.id, entity.behaviours, entity.bounds, frame).bounds,
        mask: entity.mask,
        drawable: entity.drawable,
        behaviours: Seq::new(
            entity.behaviours.len(),
            |i: int| stage_after(entity.id, entity.behaviours, entity.bounds, frame, i),
        ),
    }
}

/// An entity without behaviours keeps its rectangle.
pub proof fn lemma_empty_chain_keeps_bounds(entity: EntityState, frame: Frame)
    requires
        entity.behaviours.len() == 0,
    ensures
        ticked(entity, frame).bounds == entity.bounds,
        ticked(entity, frame).behaviours =~= entity.behaviours,
{
}

/// A frame changes neither an entity's number nor its mask, nor what is
/// drawn for it, nor the length of its chain, nor which kind of behaviour
/// stands at which place.
pub proof fn lemma_ticked_keeps_identity(entity: EntityState, frame: Frame)
    ensures
        ticked(entity, frame).id == entity.id,
        ticked(entity, frame).mask == entity.mask,
        ticked(entity, frame).drawable == entity.drawable,
        ticked(entity, frame).behaviours.len() == entity.behaviours.len(),
        forall|i: int|
            0 <= i < entity.behaviours.len() ==> same_kind(
                #[trigger] ticked(entity, frame).behaviours[i],
                entity.behaviours[i],
            ),
{
}

/// Whether two stages hold the same kind of behaviour.
pub open spec fn same_kind(a: BehaviourType, b: BehaviourType) -> bool {
    match (a, b) {
        (BehaviourType::Dvd(_), BehaviourType::Dvd(_)) => true,
        (BehaviourType::Controllable(_), BehaviourType::Controllable(_)) => true,
        (BehaviourType::Collision(_), BehaviourType::Collision(_)) => true,
        (BehaviourType::Physics(_), BehaviourType::Physics(_)) => true,
        _ => false,
    }
}

/// An entity whose chain is a single mover is, after a frame, centered on
/// a point of the rectangle that the mover is kept in: the mover's own,
/// or the world's.
pub proof fn lemma_lone_mover_stays_inside(entity: EntityState, frame: Frame, mover: DvdBehaviour)
    requires
        entity.behaviours == seq![BehaviourType::Dvd(mover)],
    ensures
        ticked(entity, frame).bounds == entity.bounds.spec_set_center(
            mover.spec_position(
                stage_input(entity.id, starting_carry(entity.bounds), frame),
                frame.delta_t,
            ),
        ),
        mover.spec_clamp_bounds(frame.world_bounds).spec_is_inside(
            mover.spec_position(
                stage_input(entity.id, starting_carry(entity.bounds), frame),
                frame.delta_t,
            ),
        ),
{
    let stages = entity.behaviours;
    assert(stages.drop_last() =~= Seq::<BehaviourType>::empty());
    assert(stages.last() == BehaviourType::Dvd(mover));
    assert(carry_after(entity.id, stages.drop_last(), entity.bounds, frame) == starting_carry(
        entity.bounds,
    ));
    lemma_dvd_position_inside(
        mover,
        stage_input(entity.id, starting_carry(entity.bounds), frame),
        frame.delta_t,
    );
}

impl View for GameObject {
    type V = EntityState;

    open spec fn view(&self) -> EntityState {
        EntityState {
            id: self.id,
            bounds: self.bounds,
            mask: self.mask,
            drawable: self.drawable,
            behaviours: self.behaviours@,
        }
    }
}

impl Clone for GameObject {
    fn clone(&self) -> (r: Self)
        ensures
            r@ == self@,
    {
        let mut behaviours: Vec<BehaviourType> = Vec::new();
        let n = self.behaviours.len();
        let mut i: usize = 0;
        while i < n
            invariant
                i <= n,
                n == self.behaviours@.len(),
                behaviours@ == self.behaviours@.take(i as int),
            decreases n - i,
        {
            behaviours.push(self.behaviours[i]);
            assert(self.behaviours@.take(i + 1) =~= self.behaviours@.take(i as int).push(
                self.behaviours@[i as int],
            ));
            i += 1;
        }
        assert(self.behaviours@.take(n as int) =~= self.behaviours@);
        GameObject {
            id: self.id,
            bounds: self.bounds,
            mask: self.mask,
            drawable: self.drawable,
            behaviours,
        }
    }
}

impl GameObject {
    /// Whether every stage of the chain can run.
    pub open spec fn wf(&self) -> bool {
        forall|i: int| 0 <= i < self.behaviours@.len() ==> (#[trigger] self.behaviours@[i]).wf()
    }

    /// An entity at the origin without size or behaviours, drawn as
    /// nothing says otherwise.
    pub fn new(id: i32) -> (r: Self)
        ensures
            r.id == id,
            r.bounds == (Rect {
                x: Fixed { raw: 0 },
                y: Fixed { raw: 0 },
                w: Fixed { raw: 0 },
                h: Fixed { raw: 0 },
            }),
            r.mask == 0,
            r.drawable == Some(Drawable::default_spec()),
            r.behaviours@.len() == 0,
            r.wf(),
    {
        Self {
            id,
            bounds: Rect {
                x: Fixed::zero(),
                y: Fixed::zero(),
                w: Fixed::zero(),
                h: Fixed::zero(),
            },
            mask: 0,
            drawable: Some(Drawable::default()),
            behaviours: Vec::new(),
        }
    }

    /// Runs the chain once, in order. Each stage is handed the rectangle
    /// and the contacts as the stages before it left them, and the force
    /// and the impulse of the stage just before it; what the last stage
    /// hands on becomes the entity's rectangle.
    pub fn tick(
        &mut self,
        delta_t: Fixed,
        world_bounds: Rect,
        actions: ActionSet,
        other_bounds: &Vec<BoundInfo>,
    )
        requires
            old(self).wf(),
        ensures
            final(self)@ == ticked(
                old(self)@,
                Frame { delta_t, world_bounds, actions, others: other_bounds@ },
            ),
            final(self).wf(),
    {
        let ghost frame = Frame { delta_t, world_bounds, actions, others: other_bounds@ };
        let ghost before = self.behaviours@;
        let mut bounds = self.bounds;
        let mut collisions: Vec<CollisionInfo> = Vec::new();
        let mut force: Option<PhysicsVector> = None;
        let mut impulse: Option<PhysicsVector> = None;
        let n = self.behaviours.len();
        let mut i: usize = 0;
        while i < n
            invariant
                i <= n,
                n == before.len(),
                self.behaviours@.len() == n,
                self.id == old(self).id,
                self.bounds == old(self).bounds,
                self.mask == old(self).mask,
                self.drawable == old(self).drawable,
                before == old(self).behaviours@,
                frame == (Frame { delta_t, world_bounds, actions, others: other_bounds@ }),
                forall|k: int| i <= k < n ==> self.behaviours@[k] == before[k],
                forall|k: int|
                    0 <= k < i ==> #[trigger] self.behaviours@[k] == stage_after(
                        self.id,
                        before,
                        self.bounds,
                        frame,
                        k,
                    ),
                forall|k: int| 0 <= k < n ==> (#[trigger] self.behaviours@[k]).wf(),
                (Carry { bounds, collisions: collisions@, force, impulse }) == carry_after(
                    self.id,
                    before.take(i as int),
                    self.bounds,
                    frame,
                ),
            decreases n - i,
        {
            let ghost carry = Carry { bounds, collisions: collisions@, force, impulse };
            let result = self.behaviours[i].tick(
                BehaviourParameter {
                    id: self.id,
                    bounds,
                    actions,
                    world_bounds,
                    other_bounds,
                    collisions: &collisions,
                    force,
                    impulse,
                },
                delta_t,
            );
            proof {
                let upto = before.take(i + 1);
                assert(upto.drop_last() =~= before.take(i as int));
                assert(upto.last() == before[i as int]);
            }
            if let Some(b) = result.bounds {
                bounds = b;
            }
            if let Some(c) = result.collisions {
                collisions = c;
            }
            force = result.force;
            impulse = result.impulse;
            i += 1;
        }
        proof {
            assert(before.take(n as int) =~= before);
        }
        self.bounds = bounds;
        proof {
            assert(self@.behaviours =~= ticked(old(self)@, frame).behaviours);
        }
    }
}

} // verus!
