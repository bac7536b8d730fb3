use crate::math::fixed::{Fixed, SCALE};
use std::ops::{Add, Mul, Sub};
use vstd::prelude::*;
use vstd::std_specs::ops::{AddSpec, MulSpec, SubSpec};

verus! {

/// The value that lies the fraction `roll` of the way from `min` to `max`.
pub open spec fn between(min: Fixed, max: Fixed, roll: Fixed) -> Fixed {
    roll.mul_spec(max.sub_spec(min)).add_spec(min)
}

/// A value between `min` and `max`, picked by `roll`: a fraction from zero
/// to one that the caller has drawn from its source of chance.
pub fn random(min: Fixed, max: Fixed, roll: Fixed) -> (r: Fixed)
    ensures
        r == between(min, max, roll),
{
    roll * (max - min) + min
}

/// A roll from zero to one picks a value from `min` to `max`, the ends
/// included, as long as the distance between the two can be told.
pub proof fn lemma_between_in_range(min: Fixed, max: Fixed, roll: Fixed)
    requires
        0 <= roll@ <= SCALE,
        min@ <= max@,
        max@ - min@ <= i64::MAX,
    ensures
        min@ <= between(min, max, roll)@ <= max@,
        roll@ == 0 ==> between(min, max, roll) == min,
        roll@ == SCALE ==> between(min, max, roll) == max,
{
    let d = max@ - min@;
    assert(0 <= roll@ * d <= SCALE * d) by (nonlinear_arith)
        requires
            0 <= roll@ <= SCALE,
            0 <= d,
    ;
    vstd::arithmetic::div_mod::lemma_div_is_ordered(roll@ * d, SCALE * d, SCALE as int);
    vstd::arithmetic::div_mod::lemma_div_multiples_vanish(d, SCALE as int);
    vstd::arithmetic::div_mod::lemma_div_pos_is_pos(roll@ * d, SCALE as int);
    assert(0 * d == 0) by (nonlinear_arith);
}

} // verus!
