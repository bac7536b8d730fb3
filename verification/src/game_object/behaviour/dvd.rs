use crate::game_object::behaviour::{BehaviourParameter, BehaviourResult, StageInput, StageOutput};
use crate::game_object::PhysicsVector;
use crate::math::bounds::{Bounds, Point, Rect};
use crate::math::fixed::Fixed;
use crate::math::vector2::Vector2;
use std::ops::{Add, Mul, Neg};
use vstd::prelude::*;
use vstd::std_specs::ops::{AddSpec, MulSpec, NegSpec};

verus! {

/// Moves an entity at a steady speed and turns it round at the edges of a
/// rectangle.
#[derive(Debug, Clone, Copy)]
pub struct DvdBehaviour {
    /// The rectangle the center is kept in; the world's where there is none.
    pub bounds: Option<Rect>,
    pub speed: PhysicsVector,
}

/// `speed` with its sign changed where `target` lies beyond the interval
/// from `lo` to `hi`, and unchanged where it lies within.
pub open spec fn bounced(speed: Fixed, target: Fixed, lo: Fixed, hi: Fixed) -> Fixed {
    if target@ < lo@ || target@ > hi@ {
        speed.neg_spec()
    } else {
        speed
    }
}

impl DvdBehaviour {
    pub fn new(bounds: Rect, speed: PhysicsVector) -> (r: Self)
        ensures
            r.bounds == Some(bounds),
            r.speed == speed,
    {
        Self { bounds: Some(bounds), speed }
    }

    /// The rectangle that the center is kept in.
    pub open spec fn spec_clamp_bounds(self, world_bounds: Rect) -> Rect {
        match self.bounds {
            Some(b) => b,
            None => world_bounds,
        }
    }

    /// Where the center would be after `delta_t` if nothing stood in its way.
    pub open spec fn spec_target(self, bounds: Rect, delta_t: Fixed) -> Point {
        Vector2 {
            x: bounds.spec_center().x.add_spec(self.speed.x.mul_spec(delta_t)),
            y: bounds.spec_center().y.add_spec(self.speed.y.mul_spec(delta_t)),
        }
    }

    /// Where the center is put: the target, moved into the clamp rectangle.
    pub open spec fn spec_position(self, input: StageInput, delta_t: Fixed) -> Point {
        let target = self.spec_target(input.bounds, delta_t);
        let limits = self.spec_clamp_bounds(input.world_bounds);
        Vector2 {
            x: target.x.spec_clamp(limits.spec_left(), limits.spec_right()),
            y: target.y.spec_clamp(limits.spec_top(), limits.spec_bottom()),
        }
    }

    /// The behaviour after the tick: on each axis on which the target left
    /// the clamp rectangle the speed has changed its sign.
    pub open spec fn spec_next(self, input: StageInput, delta_t: Fixed) -> DvdBehaviour {
        let target = self.spec_target(input.bounds, delta_t);
        let limits = self.spec_clamp_bounds(input.world_bounds);
        DvdBehaviour {
            bounds: self.bounds,
            speed: Vector2 {
                x: bounced(self.speed.x, target.x, limits.spec_left(), limits.spec_right()),
                y: bounced(self.speed.y, target.y, limits.spec_top(), limits.spec_bottom()),
            },
        }
    }

    /// What the stage puts out: the rectangle, centered on the new position.
    pub open spec fn spec_tick(self, input: StageInput, delta_t: Fixed) -> StageOutput {
        StageOutput {
            bounds: Some(input.bounds.spec_set_center(self.spec_position(input, delta_t))),
            collisions: None,
            force: None,
            impulse: None,
        }
    }

    /// Moves the center by the speed times the time step. On each axis on
    /// which that leads out of the clamp rectangle the speed turns round,
    /// and the center is put on the edge.
    pub fn tick(&mut self, params: BehaviourParameter, delta_t: Fixed) -> (result:
        BehaviourResult)
        ensures
            *final(self) == old(self).spec_next(params@, delta_t),
            result@ == old(self).spec_tick(params@, delta_t),
    {
        let center = params.bounds.center();
        let clamp_bounds = match self.bounds {
            Some(b) => b,
            None => params.world_bounds,
        };
        let step = self.speed * delta_t;
        let mut position = center + step;

        let left = clamp_bounds.left();
        let right = clamp_bounds.right();
        let top = clamp_bounds.top();
        let bottom = clamp_bounds.bottom();

        if position.x.raw < left.raw {
            self.speed.x = self.speed.x.neg();
        } else if position.x.raw > right.raw {
            self.speed.x = self.speed.x.neg();
        }

        if position.y.raw < top.raw {
            self.speed.y = self.speed.y.neg();
        } else if position.y.raw > bottom.raw {
            self.speed.y = self.speed.y.neg();
        }

        proof {
            clamp_bounds.lemma_edges_ordered();
        }
        position.x = position.x.clamp(left, right);
        position.y = position.y.clamp(top, bottom);

        let mut bounds = params.bounds;
        bounds.set_center(position);

        BehaviourResult { bounds: Some(bounds), collisions: None, force: None, impulse: None }
    }
}

/// The position that a tick centers the rectangle on lies inside the clamp
/// rectangle or on its border, whatever the speed and the time step.
pub proof fn lemma_dvd_position_inside(behaviour: DvdBehaviour, input: StageInput, delta_t: Fixed)
    ensures
        behaviour.spec_clamp_bounds(input.world_bounds).spec_is_inside(
            behaviour.spec_position(input, delta_t),
        ),
{
    behaviour.spec_clamp_bounds(input.world_bounds).lemma_edges_ordered();
}

/// A target beyond the right edge turns the horizontal speed round and
/// leaves the position on that edge.
pub proof fn lemma_dvd_bounces_at_right_edge(
    behaviour: DvdBehaviour,
    input: StageInput,
    delta_t: Fixed,
)
    requires
        behaviour.spec_target(input.bounds, delta_t).x@ > behaviour.spec_clamp_bounds(
            input.world_bounds,
        ).spec_right()@,
    ensures
        behaviour.spec_next(input, delta_t).speed.x == behaviour.speed.x.neg_spec(),
        behaviour.spec_position(input, delta_t).x == behaviour.spec_clamp_bounds(
            input.world_bounds,
        ).spec_right(),
{
    behaviour.spec_clamp_bounds(input.world_bounds).lemma_edges_ordered();
}

} // verus!
