use crate::game_object::behaviour::{BehaviourParameter, BehaviourResult, StageInput, StageOutput};
use crate::game_object::{CollisionInfo, PhysicsVector};
use crate::math::bounds::{Bounds, Point, Rect};
use crate::math::fixed::{lemma_int_sqrt_of_square, Fixed, SCALE};
use crate::math::vector2::Vector2;
use crate::math::VectorOps;
use std::ops::{Add, Div, Mul, Neg, Sub};
use vstd::prelude::*;
use vstd::std_specs::ops::{AddSpec, DivSpec, MulSpec, NegSpec, SubSpec};

verus! {

/// How many pixels make a meter, in millionths.
pub const PIXELS_PER_METER: i64 = 32_000_000;

/// How many meters make a pixel, in millionths.
pub const METERS_PER_PIXEL: i64 = 31_250;

/// The acceleration of a falling body in meters per second squared, in
/// millionths. It points down, to larger `y`.
pub const STANDARD_GRAVITY: i64 = 9_806_650;

/// The factor of the air's resistance, which grows with the square of
/// the speed, in millionths.
pub const AIR_RESISTANCE_COEF: i64 = 10_000;

/// Moves an entity as forces, impulses, gravity and the air make it move.
#[derive(Debug, Clone, Copy)]
pub struct PhysicsBehaviour {
    /// The rectangle the center is kept in; the world's where there is none.
    pub bounds: Option<Rect>,
    /// The velocity, in meters per second.
    pub speed: PhysicsVector,
    pub mass: Fixed,
}

/// The vector with both coordinates multiplied by `factor`.
pub open spec fn scaled(v: PhysicsVector, factor: Fixed) -> PhysicsVector {
    Vector2 { x: v.x.mul_spec(factor), y: v.y.mul_spec(factor) }
}

/// The sum of two vectors.
pub open spec fn summed(a: PhysicsVector, b: PhysicsVector) -> PhysicsVector {
    Vector2 { x: a.x.add_spec(b.x), y: a.y.add_spec(b.y) }
}

/// What a force or an impulse adds per unit of mass; nothing where there
/// is none.
pub open spec fn per_mass(push: Option<PhysicsVector>, mass: Fixed) -> PhysicsVector {
    match push {
        Some(p) => Vector2 { x: p.x.div_spec(mass), y: p.y.div_spec(mass) },
        None => Vector2 { x: Fixed { raw: 0 }, y: Fixed { raw: 0 } },
    }
}

/// The acceleration by which the air slows a body down: against the
/// velocity, and as large as the factor times the speed squared. A body at
/// rest meets no resistance.
pub open spec fn air_resistance(velocity: PhysicsVector) -> PhysicsVector {
    let magnitude = velocity.len_spec();
    if magnitude@ != 0 {
        let against = Vector2 {
            x: velocity.normal_spec().x.neg_spec(),
            y: velocity.normal_spec().y.neg_spec(),
        };
        scaled(
            against,
            Fixed { raw: AIR_RESISTANCE_COEF }.mul_spec(magnitude).mul_spec(magnitude),
        )
    } else {
        Vector2 { x: Fixed { raw: 0 }, y: Fixed { raw: 0 } }
    }
}

/// The whole acceleration: gravity, the air's resistance, and the force
/// per unit of mass.
pub open spec fn acceleration(
    velocity: PhysicsVector,
    force: Option<PhysicsVector>,
    mass: Fixed,
) -> PhysicsVector {
    let gravity = Vector2 { x: Fixed { raw: 0 }, y: Fixed { raw: STANDARD_GRAVITY } };
    summed(summed(gravity, air_resistance(velocity)), per_mass(force, mass))
}

/// The velocity after the impulse, taken at once, and the acceleration,
/// taken over the time step.
pub open spec fn accelerated(
    velocity: PhysicsVector,
    force: Option<PhysicsVector>,
    impulse: Option<PhysicsVector>,
    mass: Fixed,
    delta_t: Fixed,
) -> PhysicsVector {
    summed(
        summed(velocity, per_mass(impulse, mass)),
        scaled(acceleration(velocity, force, mass), delta_t),
    )
}

/// Whether the velocity `speed` along one axis leads into a contact whose
/// center lies at `contact_center` on that axis, seen from `center`: the
/// difference and the speed have the same sign.
pub open spec fn moves_into(contact_center: Fixed, center: Fixed, speed: Fixed) -> bool {
    contact_center.sub_spec(center).spec_signum() == speed.spec_signum()
}

/// The velocity after one contact: a contact that is wider than tall stops
/// the vertical movement that leads into it, any other contact the
/// horizontal one.
pub open spec fn settled_on(
    velocity: PhysicsVector,
    center: Point,
    contact: CollisionInfo,
) -> PhysicsVector {
    let contact_center = contact.1.spec_center();
    if contact.1.w@ > contact.1.h@ {
        if moves_into(contact_center.y, center.y, velocity.y) {
            Vector2 { x: velocity.x, y: Fixed { raw: 0 } }
        } else {
            velocity
        }
    } else {
        if moves_into(contact_center.x, center.x, velocity.x) {
            Vector2 { x: Fixed { raw: 0 }, y: velocity.y }
        } else {
            velocity
        }
    }
}

/// The velocity after all contacts, each taken in its turn.
pub open spec fn settled(
    velocity: PhysicsVector,
    center: Point,
    contacts: Seq<CollisionInfo>,
) -> PhysicsVector
    decreases contacts.len(),
{
    if contacts.len() == 0 {
        velocity
    } else {
        settled_on(settled(velocity, center, contacts.drop_last()), center, contacts.last())
    }
}

impl PhysicsBehaviour {
    pub fn new(bounds: Rect, speed: PhysicsVector, mass: Fixed) -> (r: Self)
        ensures
            r.bounds == Some(bounds),
            r.speed == speed,
            r.mass == mass,
    {
        Self { bounds: Some(bounds), speed, mass }
    }

    /// The rectangle that the center is kept in.
    pub open spec fn spec_clamp_bounds(self, world_bounds: Rect) -> Rect {
        match self.bounds {
            Some(b) => b,
            None => world_bounds,
        }
    }

    /// The velocity after the tick.
    pub open spec fn spec_velocity(self, input: StageInput, delta_t: Fixed) -> PhysicsVector {
        settled(
            accelerated(self.speed, input.force, input.impulse, self.mass, delta_t),
            input.bounds.spec_center(),
            input.collisions,
        )
    }

    /// The behaviour after the tick: only the velocity has changed.
    pub open spec fn spec_next(self, input: StageInput, delta_t: Fixed) -> PhysicsBehaviour {
        PhysicsBehaviour {
            bounds: self.bounds,
            speed: self.spec_velocity(input, delta_t),
            mass: self.mass,
        }
    }

    /// Where the center would be after the tick if nothing kept it in: the
    /// center in meters, moved by the new velocity over the time step, in
    /// pixels again.
    pub open spec fn spec_target(self, input: StageInput, delta_t: Fixed) -> Point {
        let meters = scaled(input.bounds.spec_center(), Fixed { raw: METERS_PER_PIXEL });
        let moved = summed(meters, scaled(self.spec_velocity(input, delta_t), delta_t));
        scaled(moved, Fixed { raw: PIXELS_PER_METER })
    }

    /// Where the center is put: the target, moved into the clamp rectangle.
    pub open spec fn spec_position(self, input: StageInput, delta_t: Fixed) -> Point {
        let target = self.spec_target(input, delta_t);
        let limits = self.spec_clamp_bounds(input.world_bounds);
        Vector2 {
            x: target.x.spec_clamp(limits.spec_left(), limits.spec_right()),
            y: target.y.spec_clamp(limits.spec_top(), limits.spec_bottom()),
        }
    }

    /// What the stage puts out: the rectangle, centered on the new position.
    pub open spec fn spec_tick(self, input: StageInput, delta_t: Fixed) -> StageOutput {
        StageOutput {
            bounds: Some(input.bounds.spec_set_center(self.spec_position(input, delta_t))),
            collisions: None,
            force: None,
            impulse: None,
        }
    }

    /// The velocity after the contacts of this tick.
    fn settle(velocity: PhysicsVector, center: Point, contacts: &Vec<CollisionInfo>) -> (r:
        PhysicsVector)
        ensures
            r == settled(velocity, center, contacts@),
    {
        let mut speed = velocity;
        let n = contacts.len();
        let mut i: usize = 0;
        while i < n
            invariant
                i <= n,
                n == contacts@.len(),
                speed == settled(velocity, center, contacts@.take(i as int)),
            decreases n - i,
        {
            let (_, collision, _) = contacts[i];
            let col_center = collision.center();
            proof {
                let upto = contacts@.take(i + 1);
                assert(upto.drop_last() =~= contacts@.take(i as int));
                assert(upto.last() == contacts@[i as int]);
            }
            if collision.w.raw > collision.h.raw {
                let pos_sign = (col_center.y - center.y).signum();
                let speed_sign = speed.y.signum();
                if pos_sign.raw == speed_sign.raw {
                    speed.y = Fixed::zero();
                }
            } else {
                let pos_sign = (col_center.x - center.x).signum();
                let speed_sign = speed.x.signum();
                if pos_sign.raw == speed_sign.raw {
                    speed.x = Fixed::zero();
                }
            }
            i += 1;
        }
        proof {
            assert(contacts@.take(n as int) =~= contacts@);
        }
        speed
    }

    /// Lets gravity, the air, the force and the impulse of this frame act on
    /// the velocity, stops what leads into a contact, and moves the center
    /// by the velocity times the time step, within the clamp rectangle. The
    /// mass is above zero.
    pub fn tick(&mut self, params: BehaviourParameter, delta_t: Fixed) -> (result:
        BehaviourResult)
        requires
            old(self).mass@ > 0,
        ensures
            *final(self) == old(self).spec_next(params@, delta_t),
            result@ == old(self).spec_tick(params@, delta_t),
    {
        let zero = Vector2 { x: Fixed::zero(), y: Fixed::zero() };
        let center = params.bounds.center();
        let mut position = center * Fixed::from_raw(METERS_PER_PIXEL);
        let speed_magnitude = self.speed.len();

        let impulse = match params.impulse {
            Some(impulse) => impulse / self.mass,
            None => zero,
        };
        let force_accel = match params.force {
            Some(force) => force / self.mass,
            None => zero,
        };
        let air_resistance_accel = if speed_magnitude.raw != 0 {
            let speed_anti_normal = self.speed.normal().neg();
            speed_anti_normal * (Fixed::from_raw(AIR_RESISTANCE_COEF) * speed_magnitude
                * speed_magnitude)
        } else {
            zero
        };

        let gravity = Vector2 { x: Fixed::zero(), y: Fixed::from_raw(STANDARD_GRAVITY) };
        let acceleration = gravity + air_resistance_accel + force_accel;

        let pushed = self.speed + impulse;
        let sped = pushed + acceleration * delta_t;
        self.speed = Self::settle(sped, center, params.collisions);

        position = position + self.speed * delta_t;
        position = position * Fixed::from_raw(PIXELS_PER_METER);

        let clamp_bounds = match self.bounds {
            Some(b) => b,
            None => params.world_bounds,
        };
        proof {
            clamp_bounds.lemma_edges_ordered();
        }
        position.x = position.x.clamp(clamp_bounds.left(), clamp_bounds.right());
        position.y = position.y.clamp(clamp_bounds.top(), clamp_bounds.bottom());

        let mut bounds = params.bounds;
        bounds.set_center(position);

        BehaviourResult { bounds: Some(bounds), collisions: None, force: None, impulse: None }
    }
}

/// The position that a tick centers the rectangle on lies inside the clamp
/// rectangle or on its border, whatever the forces and the time step.
pub proof fn lemma_physics_position_inside(
    behaviour: PhysicsBehaviour,
    input: StageInput,
    delta_t: Fixed,
)
    ensures
        behaviour.spec_clamp_bounds(input.world_bounds).spec_is_inside(
            behaviour.spec_position(input, delta_t),
        ),
{
    behaviour.spec_clamp_bounds(input.world_bounds).lemma_edges_ordered();
}

/// A contact stops only the movement that leads into it, and only on its
/// own axis: one that is wider than tall leaves the horizontal speed as it
/// is, any other the vertical speed; and a movement that leads away from
/// the contact goes on.
pub proof fn lemma_contact_stops_movement_into_it(
    velocity: PhysicsVector,
    center: Point,
    contact: CollisionInfo,
)
    ensures
        contact.1.w@ > contact.1.h@ ==> settled_on(velocity, center, contact).x == velocity.x,
        contact.1.w@ <= contact.1.h@ ==> settled_on(velocity, center, contact).y == velocity.y,
        contact.1.w@ > contact.1.h@ && moves_into(contact.1.spec_center().y, center.y, velocity.y)
            ==> settled_on(velocity, center, contact).y@ == 0,
        contact.1.w@ > contact.1.h@ && !moves_into(
            contact.1.spec_center().y,
            center.y,
            velocity.y,
        ) ==> settled_on(velocity, center, contact).y == velocity.y,
        contact.1.w@ <= contact.1.h@ && moves_into(contact.1.spec_center().x, center.x, velocity.x)
            ==> settled_on(velocity, center, contact).x@ == 0,
        contact.1.w@ <= contact.1.h@ && !moves_into(
            contact.1.spec_center().x,
            center.x,
            velocity.x,
        ) ==> settled_on(velocity, center, contact).x == velocity.x,
{
}

/// Contacts only ever stop a movement: after all of them each coordinate
/// of the velocity is what it was, or zero.
pub proof fn lemma_settled_keeps_or_stops(
    velocity: PhysicsVector,
    center: Point,
    contacts: Seq<CollisionInfo>,
)
    ensures
        settled(velocity, center, contacts).x == velocity.x || settled(
            velocity,
            center,
            contacts,
        ).x@ == 0,
        settled(velocity, center, contacts).y == velocity.y || settled(
            velocity,
            center,
            contacts,
        ).y@ == 0,
    decreases contacts.len(),
{
    if contacts.len() > 0 {
        lemma_settled_keeps_or_stops(velocity, center, contacts.drop_last());
    }
}

/// Whether a force or an impulse pushes nothing: there is none, or it is
/// zero.
pub open spec fn pushes_nothing(push: Option<PhysicsVector>) -> bool {
    match push {
        Some(p) => p.x@ == 0 && p.y@ == 0,
        None => true,
    }
}

/// The fastest fall or rise, in millionths of a meter a second, for which
/// the law of accumulating gravity is stated: below it the air's
/// resistance stays smaller than gravity.
pub const STEADY_FALL_LIMIT: i64 = 30_000_000;

/// The air's resistance to a body that moves straight up or down, no
/// faster than the limit: it has no horizontal part, works against the
/// movement, and is smaller than gravity by more than 0.8 meters per
/// second squared.
proof fn lemma_vertical_air_resistance(vy: Fixed)
    requires
        -STEADY_FALL_LIMIT <= vy@ <= STEADY_FALL_LIMIT,
    ensures
        air_resistance(Vector2 { x: Fixed { raw: 0 }, y: vy }).x@ == 0,
        vy@ >= 0 ==> -9_000_000 <= air_resistance(Vector2 { x: Fixed { raw: 0 }, y: vy }).y@ <= 0,
        vy@ <= 0 ==> 0 <= air_resistance(Vector2 { x: Fixed { raw: 0 }, y: vy }).y@ <= 9_000_000,
{
    let v = Vector2 { x: Fixed { raw: 0 }, y: vy };
    let m: int = if vy@ >= 0 { vy@ } else { -vy@ };
    assert(vy@ * vy@ == m * m) by (nonlinear_arith)
        requires
            m == vy@ || m == -vy@,
    ;
    lemma_int_sqrt_of_square(m as nat);
    assert((0 * 0 + vy@ * vy@) as nat == (m as nat) * (m as nat));
    let magnitude = v.len_spec();
    assert(magnitude@ == m);
    if m != 0 {
        // the direction is one whole unit, up or down
        vstd::arithmetic::div_mod::lemma_div_by_multiple(SCALE as int, m);
        assert((m * SCALE) / m == SCALE as int) by {
            assert(m * SCALE == SCALE * m) by (nonlinear_arith);
        }
        if vy@ < 0 {
            assert(-(vy@ * SCALE) == m * SCALE) by (nonlinear_arith)
                requires
                    m == -vy@,
            ;
            assert(vy@ * SCALE < 0) by (nonlinear_arith)
                requires
                    vy@ < 0,
                    SCALE > 0,
            ;
        } else {
            assert(vy@ * SCALE >= 0) by (nonlinear_arith)
                requires
                    vy@ >= 0,
                    SCALE > 0,
            ;
        }
        let unit = v.normal_spec();
        assert(unit.x@ == 0);
        assert(unit.y@ == if vy@ < 0 { -SCALE } else { SCALE as int });
        // the factor times the speed squared
        let c1 = Fixed { raw: AIR_RESISTANCE_COEF }.mul_spec(magnitude);
        assert(0 <= c1@ <= 300_000);
        assert(c1@ * m <= 300_000 * 30_000_000) by (nonlinear_arith)
            requires
                0 <= c1@ <= 300_000,
                0 <= m <= 30_000_000,
        ;
        assert(0 <= c1@ * m) by (nonlinear_arith)
            requires
                0 <= c1@,
                0 <= m,
        ;
        let c2 = c1.mul_spec(magnitude);
        assert(0 <= c2@ <= 9_000_000);
        vstd::arithmetic::div_mod::lemma_div_by_multiple(c2@, SCALE as int);
        assert(SCALE * c2@ == c2@ * SCALE) by (nonlinear_arith);
        assert(0 * c2@ == 0) by (nonlinear_arith);
        assert((-SCALE) * c2@ == -(c2@ * SCALE)) by (nonlinear_arith);
        assert(0 <= c2@ * SCALE) by (nonlinear_arith)
            requires
                0 <= c2@,
                SCALE > 0,
        ;
    }
}

/// When the downward velocity grows. For a body on which no impulse acts
/// and which touches nothing, the downward velocity is larger after a tick
/// exactly if the downward acceleration over the time step amounts to a
/// millionth of a meter a second or more.
pub proof fn lemma_velocity_grows(behaviour: PhysicsBehaviour, input: StageInput, delta_t: Fixed)
    requires
        behaviour.mass@ > 0,
        behaviour.speed.y@ < i64::MAX,
        pushes_nothing(input.impulse),
        input.collisions.len() == 0,
    ensures
        behaviour.spec_velocity(input, delta_t).y@ > behaviour.speed.y@ <==> acceleration(
            behaviour.speed,
            input.force,
            behaviour.mass,
        ).y@ * delta_t@ >= SCALE,
{
    let v = behaviour.speed;
    let a = acceleration(v, input.force, behaviour.mass);
    let no_impulse = per_mass(input.impulse, behaviour.mass);
    assert(0 * SCALE == 0) by (nonlinear_arith);
    assert(no_impulse.y@ == 0);
    let product = a.y@ * delta_t@;
    if product >= SCALE {
        vstd::arithmetic::div_mod::lemma_div_is_ordered(SCALE as int, product, SCALE as int);
    } else if product >= 0 {
        vstd::arithmetic::div_mod::lemma_div_is_ordered(product, SCALE - 1, SCALE as int);
    } else {
        vstd::arithmetic::div_mod::lemma_div_pos_is_pos(-product, SCALE as int);
    }
}

/// Gravity accumulates. A body that moves straight up or down, no faster
/// than thirty meters a second, on which no force and no impulse acts and
/// which touches nothing, has a larger downward velocity after a tick of
/// two millionths of a second or more; it still moves straight.
pub proof fn lemma_gravity_accumulates(
    behaviour: PhysicsBehaviour,
    input: StageInput,
    delta_t: Fixed,
)
    requires
        behaviour.mass@ > 0,
        behaviour.speed.x@ == 0,
        -STEADY_FALL_LIMIT <= behaviour.speed.y@ <= STEADY_FALL_LIMIT,
        pushes_nothing(input.force),
        pushes_nothing(input.impulse),
        input.collisions.len() == 0,
        delta_t@ >= 2,
    ensures
        behaviour.spec_velocity(input, delta_t).y@ > behaviour.speed.y@,
        behaviour.spec_velocity(input, delta_t).x@ == 0,
        behaviour.spec_next(input, delta_t).speed.y@ > behaviour.speed.y@,
{
    let v = behaviour.speed;
    assert(v == (Vector2 { x: Fixed { raw: 0 }, y: v.y }));
    lemma_vertical_air_resistance(v.y);
    let mass = behaviour.mass;
    let no_force = per_mass(input.force, mass);
    let no_impulse = per_mass(input.impulse, mass);
    assert(0 * SCALE == 0) by (nonlinear_arith);
    assert(no_force.x@ == 0 && no_force.y@ == 0);
    assert(no_impulse.x@ == 0 && no_impulse.y@ == 0);
    let a = acceleration(v, input.force, mass);
    assert(a.x@ == 0);
    assert(806_650 <= a.y@ <= 18_806_650);
    assert(0 * delta_t@ == 0) by (nonlinear_arith);
    assert(a.y@ * delta_t@ >= SCALE) by (nonlinear_arith)
        requires
            806_650 <= a.y@,
            2 <= delta_t@,
            SCALE == 1_000_000,
    ;
    lemma_velocity_grows(behaviour, input, delta_t);
}

} // verus!
