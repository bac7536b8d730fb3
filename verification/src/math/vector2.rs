use crate::math::fixed::{
    fits, int_sqrt, isqrt, lemma_int_sqrt_exists, saturate, trunc_div, Fixed, SCALE,
};
use crate::math::VectorOps;
use std::ops::{Add, AddAssign, Div, DivAssign, Mul, MulAssign, Neg, Sub, SubAssign};
use vstd::prelude::*;
use vstd::std_specs::ops::{AddSpec, DivSpec, MulSpec, NegSpec, SubSpec};

verus! {

/// A pair of coordinates, over any kind of number. The operators work
/// coordinate by coordinate, and each is as exact, as total and as safe as
/// the operator of the numbers beneath it.
#[derive(PartialEq, Debug, Default, Clone, Copy)]
pub struct Vector2<T> {
    pub x: T,
    pub y: T,
}

impl Vector2<i8> {
    /// The vector whose coordinates are both one.
    pub fn unit() -> (v: Self)
        ensures
            v.x == 1,
            v.y == 1,
    {
        Self { x: 1, y: 1 }
    }
}

impl Vector2<i16> {
    /// The vector whose coordinates are both one.
    pub fn unit() -> (v: Self)
        ensures
            v.x == 1,
            v.y == 1,
    {
        Self { x: 1, y: 1 }
    }
}

impl Vector2<i32> {
    /// The vector whose coordinates are both one.
    pub fn unit() -> (v: Self)
        ensures
            v.x == 1,
            v.y == 1,
    {
        Self { x: 1, y: 1 }
    }
}

impl Vector2<i64> {
    /// The vector whose coordinates are both one.
    pub fn unit() -> (v: Self)
        ensures
            v.x == 1,
            v.y == 1,
    {
        Self { x: 1, y: 1 }
    }
}

impl Vector2<Fixed> {
    /// The vector whose coordinates are both one.
    pub fn unit() -> (v: Self)
        ensures
            v.x@ == SCALE,
            v.y@ == SCALE,
    {
        Self { x: Fixed::one(), y: Fixed::one() }
    }

    /// The vector whose coordinates are both zero.
    pub fn zero() -> (v: Self)
        ensures
            v.x@ == 0,
            v.y@ == 0,
    {
        Self { x: Fixed::zero(), y: Fixed::zero() }
    }
}

impl VectorOps for Vector2<Fixed> {
    type Output = Fixed;

    /// The square root of `x² + y²`, rounded down to a millionth.
    open spec fn len_spec(&self) -> Fixed {
        Fixed { raw: saturate(int_sqrt((self.x@ * self.x@ + self.y@ * self.y@) as nat) as int) as i64 }
    }

    open spec fn normal_req(&self) -> bool {
        self.len_spec()@ != 0
    }

    open spec fn normal_spec(&self) -> Self {
        Vector2 { x: self.x.div_spec(self.len_spec()), y: self.y.div_spec(self.len_spec()) }
    }

    fn len(&self) -> (r: Fixed) {
        let a: i128 = self.x.raw as i128;
        let b: i128 = self.y.raw as i128;
        assert(0 <= a * a <= 0x4000_0000_0000_0000_0000_0000_0000_0000) by (nonlinear_arith)
            requires
                -0x8000_0000_0000_0000 <= a <= 0x7fff_ffff_ffff_ffff,
        ;
        assert(0 <= b * b <= 0x4000_0000_0000_0000_0000_0000_0000_0000) by (nonlinear_arith)
            requires
                -0x8000_0000_0000_0000 <= b <= 0x7fff_ffff_ffff_ffff,
        ;
        let sum: u128 = (a * a) as u128 + (b * b) as u128;
        let root: u128 = isqrt(sum);
        if root > 0x7fff_ffff_ffff_ffff {
            Fixed { raw: 0x7fff_ffff_ffff_ffff }
        } else {
            Fixed { raw: root as i64 }
        }
    }

    fn normal(&self) -> (r: Self) {
        let length = self.len();
        Vector2 { x: self.x.div(length), y: self.y.div(length) }
    }
}

/// No coordinate is longer than the vector.
pub proof fn lemma_length_bounds_coordinates(v: Vector2<Fixed>)
    ensures
        int_sqrt((v.x@ * v.x@ + v.y@ * v.y@) as nat) >= v.x@,
        int_sqrt((v.x@ * v.x@ + v.y@ * v.y@) as nat) >= -v.x@,
        int_sqrt((v.x@ * v.x@ + v.y@ * v.y@) as nat) >= v.y@,
        int_sqrt((v.x@ * v.x@ + v.y@ * v.y@) as nat) >= -v.y@,
{
    let x = v.x@;
    let y = v.y@;
    assert(x * x >= 0 && y * y >= 0) by (nonlinear_arith);
    let n = (x * x + y * y) as nat;
    vstd::arithmetic::mul::lemma_mul_is_commutative(x, x);
    // some root exists, so the chosen one is a root
    let ax: int = if x >= 0 { x } else { -x };
    let ay: int = if y >= 0 { y } else { -y };
    assert(ax * ax == x * x) by (nonlinear_arith)
        requires
            ax == x || ax == -x,
    ;
    assert(ay * ay == y * y) by (nonlinear_arith)
        requires
            ay == y || ay == -y,
    ;
    lemma_int_sqrt_exists(n);
    let m = int_sqrt(n) as int;
    if ax > m {
        assert((m + 1) * (m + 1) <= ax * ax) by (nonlinear_arith)
            requires
                0 <= m + 1 <= ax,
        ;
    }
    if ay > m {
        assert((m + 1) * (m + 1) <= ay * ay) by (nonlinear_arith)
            requires
                0 <= m + 1 <= ay,
        ;
    }
}

/// The direction of a vector is no longer than one on either axis, as
/// long as the vector's length can be told.
pub proof fn lemma_normal_within_unit(v: Vector2<Fixed>)
    requires
        v.normal_req(),
        fits(int_sqrt((v.x@ * v.x@ + v.y@ * v.y@) as nat) as int),
    ensures
        -SCALE <= v.normal_spec().x@ <= SCALE,
        -SCALE <= v.normal_spec().y@ <= SCALE,
        v.x@ >= 0 ==> v.normal_spec().x@ >= 0,
        v.x@ <= 0 ==> v.normal_spec().x@ <= 0,
        v.y@ >= 0 ==> v.normal_spec().y@ >= 0,
        v.y@ <= 0 ==> v.normal_spec().y@ <= 0,
{
    lemma_length_bounds_coordinates(v);
    let m = v.len_spec()@;
    assert(m > 0);
    lemma_quotient_within_unit(v.x@, m);
    lemma_quotient_within_unit(v.y@, m);
}

/// A number divided by one that is no smaller gives no more than one.
proof fn lemma_quotient_within_unit(a: int, m: int)
    requires
        m > 0,
        -m <= a <= m,
    ensures
        -SCALE <= trunc_div(a * SCALE, m) <= SCALE,
        a >= 0 ==> trunc_div(a * SCALE, m) >= 0,
        a <= 0 ==> trunc_div(a * SCALE, m) <= 0,
{
    let b: int = if a >= 0 { a } else { -a };
    assert(0 <= b * SCALE <= m * SCALE) by (nonlinear_arith)
        requires
            0 <= b <= m,
    ;
    assert(a * SCALE == b * SCALE || a * SCALE == -(b * SCALE)) by (nonlinear_arith)
        requires
            a == b || a == -b,
    ;
    assert(a >= 0 ==> a * SCALE >= 0) by (nonlinear_arith);
    assert(a < 0 ==> a * SCALE < 0) by (nonlinear_arith);
    vstd::arithmetic::div_mod::lemma_div_is_ordered(b * SCALE, m * SCALE, m);
    assert(m * SCALE == SCALE * m) by (nonlinear_arith);
    vstd::arithmetic::div_mod::lemma_div_by_multiple(SCALE as int, m);
    vstd::arithmetic::div_mod::lemma_div_pos_is_pos(b * SCALE, m);
}

impl<T> vstd::std_specs::ops::NegSpecImpl for Vector2<T> where T: Neg<Output = T> {
    open spec fn obeys_neg_spec() -> bool {
        T::obeys_neg_spec()
    }

    open spec fn neg_req(self) -> bool {
        self.x.neg_req() && self.y.neg_req()
    }

    open spec fn neg_spec(self) -> Self {
        Vector2 { x: self.x.neg_spec(), y: self.y.neg_spec() }
    }
}

impl<T> Neg for Vector2<T> where T: Neg<Output = T> {
    type Output = Self;

    fn neg(self) -> Self {
        Self { x: self.x.neg(), y: self.y.neg() }
    }
}

impl<T> vstd::std_specs::ops::AddSpecImpl for Vector2<T> where T: Add<T, Output = T> {
    open spec fn obeys_add_spec() -> bool {
        T::obeys_add_spec()
    }

    open spec fn add_req(self, rhs: Self) -> bool {
        self.x.add_req(rhs.x) && self.y.add_req(rhs.y)
    }

    open spec fn add_spec(self, rhs: Self) -> Self {
        Vector2 { x: self.x.add_spec(rhs.x), y: self.y.add_spec(rhs.y) }
    }
}

impl<T> Add for Vector2<T> where T: Add<T, Output = T> {
    type Output = Self;

    fn add(self, rhs: Self) -> Self {
        Vector2 { x: self.x.add(rhs.x), y: self.y.add(rhs.y) }
    }
}

impl<T> AddAssign for Vector2<T> where T: Add<T, Output = T> + Copy {
    fn add_assign(&mut self, rhs: Self)
        requires
            old(self).x.add_req(rhs.x),
            old(self).y.add_req(rhs.y),
        ensures
            T::obeys_add_spec() ==> final(self).x == old(self).x.add_spec(rhs.x),
            T::obeys_add_spec() ==> final(self).y == old(self).y.add_spec(rhs.y),
    {
        self.x = self.x.add(rhs.x);
        self.y = self.y.add(rhs.y);
    }
}

impl<T> vstd::std_specs::ops::SubSpecImpl for Vector2<T> where T: Sub<T, Output = T> {
    open spec fn obeys_sub_spec() -> bool {
        T::obeys_sub_spec()
    }

    open spec fn sub_req(self, rhs: Self) -> bool {
        self.x.sub_req(rhs.x) && self.y.sub_req(rhs.y)
    }

    open spec fn sub_spec(self, rhs: Self) -> Self {
        Vector2 { x: self.x.sub_spec(rhs.x), y: self.y.sub_spec(rhs.y) }
    }
}

impl<T> Sub for Vector2<T> where T: Sub<T, Output = T> {
    type Output = Self;

    fn sub(self, rhs: Self) -> Self {
        Vector2 { x: self.x.sub(rhs.x), y: self.y.sub(rhs.y) }
    }
}

impl<T> SubAssign for Vector2<T> where T: Sub<T, Output = T> + Copy {
    fn sub_assign(&mut self, rhs: Self)
        requires
            old(self).x.sub_req(rhs.x),
            old(self).y.sub_req(rhs.y),
        ensures
            T::obeys_sub_spec() ==> final(self).x == old(self).x.sub_spec(rhs.x),
            T::obeys_sub_spec() ==> final(self).y == old(self).y.sub_spec(rhs.y),
    {
        self.x = self.x.sub(rhs.x);
        self.y = self.y.sub(rhs.y);
    }
}

/// The dot product of two vectors: the sum of the products of their
/// coordinates. Where the numbers do not say what their product is, the
/// sum must be safe for any two of them.
impl<T> vstd::std_specs::ops::MulSpecImpl for Vector2<T> where T: Mul<T, Output = T>, T: Add<T, Output = T>, T: Copy {
    open spec fn obeys_mul_spec() -> bool {
        T::obeys_mul_spec() && T::obeys_add_spec()
    }

    open spec fn mul_req(self, rhs: Self) -> bool {
        &&& self.x.mul_req(rhs.x)
        &&& self.y.mul_req(rhs.y)
        &&& T::obeys_mul_spec() ==> self.x.mul_spec(rhs.x).add_req(self.y.mul_spec(rhs.y))
        &&& !T::obeys_mul_spec() ==> forall|a: T, b: T| a.add_req(b)
    }

    open spec fn mul_spec(self, rhs: Self) -> T {
        self.x.mul_spec(rhs.x).add_spec(self.y.mul_spec(rhs.y))
    }
}

impl<T> Mul for Vector2<T> where T: Mul<T, Output = T>, T: Add<T, Output = T>, T: Copy {
    type Output = T;

    fn mul(self, rhs: Self) -> T {
        let xx = self.x.mul(rhs.x);
        let yy = self.y.mul(rhs.y);
        xx.add(yy)
    }
}

/// The vector scaled by a number.
impl<T> vstd::std_specs::ops::MulSpecImpl<T> for Vector2<T> where T: Mul<T, Output = T>, T: Copy {
    open spec fn obeys_mul_spec() -> bool {
        T::obeys_mul_spec()
    }

    open spec fn mul_req(self, rhs: T) -> bool {
        self.x.mul_req(rhs) && self.y.mul_req(rhs)
    }

    open spec fn mul_spec(self, rhs: T) -> Self {
        Vector2 { x: self.x.mul_spec(rhs), y: self.y.mul_spec(rhs) }
    }
}

impl<T> Mul<T> for Vector2<T> where T: Mul<T, Output = T>, T: Copy {
    type Output = Self;

    fn mul(self, rhs: T) -> Self {
        Vector2 { x: self.x.mul(rhs), y: self.y.mul(rhs) }
    }
}

impl<T> MulAssign<T> for Vector2<T> where T: Mul<T, Output = T> + Copy {
    fn mul_assign(&mut self, rhs: T)
        requires
            old(self).x.mul_req(rhs),
            old(self).y.mul_req(rhs),
        ensures
            T::obeys_mul_spec() ==> final(self).x == old(self).x.mul_spec(rhs),
            T::obeys_mul_spec() ==> final(self).y == old(self).y.mul_spec(rhs),
    {
        self.x = self.x.mul(rhs);
        self.y = self.y.mul(rhs);
    }
}

/// The vector with both coordinates divided by a number.
impl<T> vstd::std_specs::ops::DivSpecImpl<T> for Vector2<T> where T: Div<T, Output = T>, T: Copy {
    open spec fn obeys_div_spec() -> bool {
        T::obeys_div_spec()
    }

    open spec fn div_req(self, rhs: T) -> bool {
        self.x.div_req(rhs) && self.y.div_req(rhs)
    }

    open spec fn div_spec(self, rhs: T) -> Self {
        Vector2 { x: self.x.div_spec(rhs), y: self.y.div_spec(rhs) }
    }
}

impl<T> Div<T> for Vector2<T> where T: Div<T, Output = T>, T: Copy {
    type Output = Self;

    fn div(self, rhs: T) -> Self {
        Vector2 { x: self.x.div(rhs), y: self.y.div(rhs) }
    }
}

impl<T> DivAssign<T> for Vector2<T> where T: Div<T, Output = T> + Copy {
    fn div_assign(&mut self, rhs: T)
        requires
            old(self).x.div_req(rhs),
            old(self).y.div_req(rhs),
        ensures
            T::obeys_div_spec() ==> final(self).x == old(self).x.div_spec(rhs),
            T::obeys_div_spec() ==> final(self).y == old(self).y.div_spec(rhs),
    {
        self.x = self.x.div(rhs);
        self.y = self.y.div(rhs);
    }
}

} // verus!
