use crate::actions::{Action, ActionSet};
use crate::game_object::behaviour::{BehaviourParameter, BehaviourResult, StageInput, StageOutput};
use crate::game_object::{CollisionInfo, PhysicsVector};
use crate::math::bounds::{Bounds, Rect};
use crate::math::fixed::Fixed;
use crate::math::vector2::Vector2;
use std::ops::{Neg, Sub};
use vstd::prelude::*;
use vstd::std_specs::ops::{NegSpec, SubSpec};

verus! {

/// The time after a jump in which no other jump begins, in millionths of
/// a second.
pub const JUMP_COOLDOWN: i64 = 300_000;

/// Turns the player's actions into a force and an impulse.
#[derive(Debug, Clone, Copy)]
pub struct ControllableBehaviour {
    pub speed: Fixed,
    pub run_speed: Fixed,
    /// What is left of the cooldown after the last jump, in seconds.
    pub jumping: Fixed,
    pub velocity: PhysicsVector,
    pub acceleration: PhysicsVector,
}

/// Whether a contact is ground under a rectangle: it is wider than tall,
/// and its top edge lies below the rectangle's center.
pub open spec fn is_ground(contact: CollisionInfo, bounds: Rect) -> bool {
    contact.1.w@ > contact.1.h@ && contact.1.spec_top()@ > bounds.spec_center().y@
}

/// Whether one of the contacts is ground under the rectangle.
pub open spec fn stands_on_ground(contacts: Seq<CollisionInfo>, bounds: Rect) -> bool {
    exists|i: int| 0 <= i < contacts.len() && is_ground(#[trigger] contacts[i], bounds)
}

impl ControllableBehaviour {
    pub fn new(speed: Fixed, run_speed: Fixed) -> (r: Self)
        ensures
            r.speed == speed,
            r.run_speed == run_speed,
            r.jumping@ == 0,
            r.velocity == (Vector2 { x: Fixed { raw: 0 }, y: Fixed { raw: 0 } }),
            r.acceleration == (Vector2 { x: Fixed { raw: 0 }, y: Fixed { raw: 0 } }),
    {
        Self {
            speed,
            run_speed,
            jumping: Fixed::zero(),
            velocity: Vector2 { x: Fixed::zero(), y: Fixed::zero() },
            acceleration: Vector2 { x: Fixed::zero(), y: Fixed::zero() },
        }
    }

    /// The speed that the entity is driven with: the running speed while
    /// sprinting, the walking speed else.
    pub open spec fn spec_drive_speed(self, actions: ActionSet) -> Fixed {
        if actions@.contains(Action::Sprint) {
            self.run_speed
        } else {
            self.speed
        }
    }

    /// Whether a jump begins in this tick: the entity stands on ground,
    /// the jump is asked for, and no cooldown is running.
    pub open spec fn spec_jumps(self, input: StageInput) -> bool {
        &&& stands_on_ground(input.collisions, input.bounds)
        &&& input.actions@.contains(Action::Jump)
        &&& self.jumping@ == 0
    }

    /// The cooldown after the tick: a jump sets it, and the time step is
    /// then taken off, though never below zero.
    pub open spec fn spec_cooldown(self, input: StageInput, delta_t: Fixed) -> Fixed {
        let armed = if self.spec_jumps(input) {
            Fixed { raw: JUMP_COOLDOWN }
        } else {
            self.jumping
        };
        Fixed { raw: 0 }.spec_max(armed.sub_spec(delta_t))
    }

    /// The behaviour after the tick: only the cooldown has changed.
    pub open spec fn spec_next(self, input: StageInput, delta_t: Fixed) -> ControllableBehaviour {
        ControllableBehaviour {
            speed: self.speed,
            run_speed: self.run_speed,
            jumping: self.spec_cooldown(input, delta_t),
            velocity: self.velocity,
            acceleration: self.acceleration,
        }
    }

    /// The drive: to the left with the driving speed if that is asked for,
    /// else to the right if that is asked for, else none.
    pub open spec fn spec_force(self, actions: ActionSet) -> PhysicsVector {
        if actions@.contains(Action::MoveLeft) {
            Vector2 { x: self.spec_drive_speed(actions).neg_spec(), y: Fixed { raw: 0 } }
        } else if actions@.contains(Action::MoveRight) {
            Vector2 { x: self.spec_drive_speed(actions), y: Fixed { raw: 0 } }
        } else {
            Vector2 { x: Fixed { raw: 0 }, y: Fixed { raw: 0 } }
        }
    }

    /// The kick of a jump: upward, as strong as the running speed; none
    /// where no jump begins.
    pub open spec fn spec_impulse(self, input: StageInput) -> PhysicsVector {
        if self.spec_jumps(input) {
            Vector2 { x: Fixed { raw: 0 }, y: self.run_speed.neg_spec() }
        } else {
            Vector2 { x: Fixed { raw: 0 }, y: Fixed { raw: 0 } }
        }
    }

    /// What the stage puts out: a force and an impulse, and nothing else.
    pub open spec fn spec_tick(self, input: StageInput) -> StageOutput {
        StageOutput {
            bounds: None,
            collisions: None,
            force: Some(self.spec_force(input.actions)),
            impulse: Some(self.spec_impulse(input)),
        }
    }

    /// Whether one of the contacts is ground under the rectangle.
    pub fn grounded(contacts: &Vec<CollisionInfo>, bounds: Rect) -> (r: bool)
        ensures
            r == stands_on_ground(contacts@, bounds),
    {
        let center_y = bounds.center().y;
        let n = contacts.len();
        let mut i: usize = 0;
        while i < n
            invariant
                i <= n,
                n == contacts@.len(),
                center_y == bounds.spec_center().y,
                forall|k: int| 0 <= k < i ==> !is_ground(#[trigger] contacts@[k], bounds),
            decreases n - i,
        {
            let (_, collision, _) = contacts[i];
            if collision.w.raw > collision.h.raw && collision.top().raw > center_y.raw {
                assert(is_ground(contacts@[i as int], bounds));
                return true;
            }
            i += 1;
        }
        false
    }

    /// Turns the actions of this frame into a drive to the left or right
    /// and, from the ground and outside the cooldown, the kick of a jump.
    /// The rectangle is left to the stages that follow.
    pub fn tick(&mut self, params: BehaviourParameter, delta_t: Fixed) -> (result:
        BehaviourResult)
        ensures
            *final(self) == old(self).spec_next(params@, delta_t),
            result@ == old(self).spec_tick(params@),
    {
        let actions = params.actions;
        let zero = Fixed::zero();
        let mut force = Vector2 { x: zero, y: zero };
        let mut impulse = Vector2 { x: zero, y: zero };

        let speed = if actions.contains(Action::Sprint) {
            self.run_speed
        } else {
            self.speed
        };

        let in_air = !Self::grounded(params.collisions, params.bounds);

        if !in_air && actions.contains(Action::Jump) && self.jumping.raw == 0 {
            self.jumping = Fixed::from_raw(JUMP_COOLDOWN);
            impulse.y = self.run_speed.neg();
        }

        self.jumping = zero.max(self.jumping - delta_t);

        if actions.contains(Action::MoveLeft) {
            force.x = speed.neg();
        } else if actions.contains(Action::MoveRight) {
            force.x = speed;
        }

        BehaviourResult { bounds: None, collisions: None, force: Some(force), impulse: Some(impulse) }
    }
}

/// A jump arms the cooldown: after a tick in which a jump began and which
/// took less than the cooldown, the cooldown is still running.
pub proof fn lemma_jump_arms_cooldown(
    behaviour: ControllableBehaviour,
    input: StageInput,
    delta_t: Fixed,
)
    requires
        behaviour.spec_jumps(input),
        0 <= delta_t@ < JUMP_COOLDOWN,
    ensures
        behaviour.spec_next(input, delta_t).jumping@ == JUMP_COOLDOWN - delta_t@,
        behaviour.spec_next(input, delta_t).jumping@ > 0,
        behaviour.spec_tick(input).impulse == Some(
            Vector2 { x: Fixed { raw: 0 }, y: behaviour.run_speed.neg_spec() },
        ),
{
}

/// While the cooldown is running no jump begins: whatever is asked for
/// and whatever the entity stands on, the impulse is zero.
pub proof fn lemma_no_jump_during_cooldown(behaviour: ControllableBehaviour, input: StageInput)
    requires
        behaviour.jumping@ > 0,
    ensures
        !behaviour.spec_jumps(input),
        behaviour.spec_tick(input).impulse == Some(
            Vector2 { x: Fixed { raw: 0 }, y: Fixed { raw: 0 } },
        ),
{
}

/// Asking for a second jump before the cooldown has run out gives no
/// second impulse: after a tick in which a jump began, every tick that
/// follows within the cooldown puts out an impulse of zero.
pub proof fn lemma_jump_debounce(
    behaviour: ControllableBehaviour,
    first: StageInput,
    first_delta_t: Fixed,
    second: StageInput,
)
    requires
        behaviour.spec_jumps(first),
        0 <= first_delta_t@ < JUMP_COOLDOWN,
    ensures
        behaviour.spec_next(first, first_delta_t).spec_tick(second).impulse == Some(
            Vector2 { x: Fixed { raw: 0 }, y: Fixed { raw: 0 } },
        ),
{
    lemma_jump_arms_cooldown(behaviour, first, first_delta_t);
    lemma_no_jump_during_cooldown(behaviour.spec_next(first, first_delta_t), second);
}

} // verus!
