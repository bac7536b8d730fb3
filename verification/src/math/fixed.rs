use std::ops::{Add, Div, Mul, Neg, Sub};
use vstd::prelude::*;
use vstd::std_specs::ops::{AddSpec, MulSpec, NegSpec, SubSpec};

verus! {

/// Number of raw units in one whole unit: a `Fixed` counts millionths.
pub const SCALE: i64 = 1_000_000;

/// A signed decimal fixed-point number with six fractional digits.
///
/// The value stood for is `raw / SCALE`. Every operation is total and
/// saturates at the ends of the `i64` range instead of wrapping.
#[derive(Clone, Copy, Debug, Default, PartialEq, Eq, Structural, PartialOrd, Ord, Hash)]
pub struct Fixed {
    pub raw: i64,
}

impl View for Fixed {
    type V = int;

    /// The number of millionths this value holds.
    open spec fn view(&self) -> int {
        self.raw as int
    }
}

/// The nearest value to `v` that an `i64` can hold.
pub open spec fn saturate(v: int) -> int {
    if v > i64::MAX {
        i64::MAX as int
    } else if v < i64::MIN {
        i64::MIN as int
    } else {
        v
    }
}

/// Whether an `i64` can hold `v`: nothing saturates on the way to it.
pub open spec fn fits(v: int) -> bool {
    i64::MIN <= v <= i64::MAX
}

/// The quotient of `n` by `d` rounded toward zero; `d` is not zero.
pub open spec fn trunc_div(n: int, d: int) -> int {
    if n >= 0 {
        if d > 0 {
            n / d
        } else {
            -(n / (-d))
        }
    } else {
        if d > 0 {
            -((-n) / d)
        } else {
            (-n) / (-d)
        }
    }
}

/// `r` is the largest natural number whose square does not exceed `n`.
pub open spec fn is_int_sqrt(n: nat, r: nat) -> bool {
    r * r <= n < (r + 1) * (r + 1)
}

/// The largest natural number whose square does not exceed `n`.
pub open spec fn int_sqrt(n: nat) -> nat {
    choose|r: nat| is_int_sqrt(n, r)
}

/// Narrows a wide intermediate result to the `i64` range.
fn narrow(v: i128) -> (r: i64)
    ensures
        r as int == saturate(v as int),
{
    if v > 0x7fff_ffff_ffff_ffff {
        0x7fff_ffff_ffff_ffff
    } else if v < -0x8000_0000_0000_0000 {
        -0x8000_0000_0000_0000
    } else {
        v as i64
    }
}

impl Fixed {
    /// The value with the given number of millionths.
    pub fn from_raw(raw: i64) -> (r: Self)
        ensures
            r@ == raw,
    {
        Fixed { raw }
    }

    /// The whole number `n`.
    pub fn from_int(n: i32) -> (r: Self)
        ensures
            r@ == n * SCALE,
    {
        let wide: i64 = n as i64;
        Fixed { raw: wide * SCALE }
    }

    /// The number zero.
    pub fn zero() -> (r: Self)
        ensures
            r@ == 0,
    {
        Fixed { raw: 0 }
    }

    /// The number one.
    pub fn one() -> (r: Self)
        ensures
            r@ == SCALE,
    {
        Fixed { raw: SCALE }
    }

    /// Half of the value, rounded toward zero.
    pub open spec fn spec_half(self) -> Fixed {
        Fixed { raw: trunc_div(self@, 2) as i64 }
    }

    pub fn half(self) -> (r: Self)
        ensures
            r == self.spec_half(),
    {
        Fixed { raw: self.raw / 2 }
    }

    /// The value halfway between `self` and `other`, rounded toward zero.
    /// It always fits, so nothing saturates.
    pub open spec fn spec_midpoint(self, other: Fixed) -> Fixed {
        Fixed { raw: trunc_div(self@ + other@, 2) as i64 }
    }

    pub fn midpoint(self, other: Fixed) -> (r: Self)
        ensures
            r == self.spec_midpoint(other),
    {
        let wide: i128 = (self.raw as i128 + other.raw as i128) / 2;
        Fixed { raw: wide as i64 }
    }

    /// One for a value that is zero or more, minus one for a negative value.
    pub open spec fn spec_signum(self) -> Fixed {
        if self@ >= 0 {
            Fixed { raw: SCALE }
        } else {
            Fixed { raw: (-SCALE) as i64 }
        }
    }

    pub fn signum(self) -> (r: Self)
        ensures
            r == self.spec_signum(),
    {
        if self.raw >= 0 {
            Fixed { raw: SCALE }
        } else {
            Fixed { raw: -SCALE }
        }
    }

    /// The smaller of the two values.
    pub open spec fn spec_min(self, other: Fixed) -> Fixed {
        if other@ < self@ {
            other
        } else {
            self
        }
    }

    pub fn min(self, other: Fixed) -> (r: Self)
        ensures
            r == self.spec_min(other),
    {
        if other.raw < self.raw {
            other
        } else {
            self
        }
    }

    /// The larger of the two values.
    pub open spec fn spec_max(self, other: Fixed) -> Fixed {
        if other@ > self@ {
            other
        } else {
            self
        }
    }

    pub fn max(self, other: Fixed) -> (r: Self)
        ensures
            r == self.spec_max(other),
    {
        if other.raw > self.raw {
            other
        } else {
            self
        }
    }

    /// The value of the interval from `lo` to `hi` that is nearest to `self`.
    pub open spec fn spec_clamp(self, lo: Fixed, hi: Fixed) -> Fixed {
        if self@ < lo@ {
            lo
        } else if self@ > hi@ {
            hi
        } else {
            self
        }
    }

    pub fn clamp(self, lo: Fixed, hi: Fixed) -> (r: Self)
        requires
            lo@ <= hi@,
        ensures
            r == self.spec_clamp(lo, hi),
            lo@ <= r@ <= hi@,
    {
        if self.raw < lo.raw {
            lo
        } else if self.raw > hi.raw {
            hi
        } else {
            self
        }
    }
}

/// Whoever has found a root has found the root: the largest natural number
/// whose square does not exceed `n` is unique.
pub proof fn lemma_int_sqrt_unique(n: nat, r: nat)
    requires
        is_int_sqrt(n, r),
    ensures
        int_sqrt(n) == r,
{
    let s = int_sqrt(n);
    assert(is_int_sqrt(n, s));
    if s < r {
        assert((s + 1) * (s + 1) <= r * r) by (nonlinear_arith)
            requires
                s + 1 <= r,
        ;
    } else if r < s {
        assert((r + 1) * (r + 1) <= s * s) by (nonlinear_arith)
            requires
                r + 1 <= s,
        ;
    }
}

/// Every natural number has a root: the chosen one is a root.
pub proof fn lemma_int_sqrt_exists(n: nat)
    ensures
        is_int_sqrt(n, int_sqrt(n)),
    decreases n,
{
    if n == 0 {
        assert(0nat * 0nat == 0 && (0nat + 1) * (0nat + 1) == 1) by (nonlinear_arith);
        assert(is_int_sqrt(0, 0));
    } else {
        lemma_int_sqrt_exists((n - 1) as nat);
        let r = int_sqrt((n - 1) as nat);
        // the root of the number before is the root, or one less than it
        if n < (r + 1) * (r + 1) {
            assert(is_int_sqrt(n, r));
        } else {
            assert((r + 1) * (r + 1) == n);
            assert(n < (r + 2) * (r + 2)) by (nonlinear_arith)
                requires
                    (r + 1) * (r + 1) == n,
            ;
            assert(is_int_sqrt(n, r + 1));
        }
    }
}

/// The root of a square is the number that was squared.
pub proof fn lemma_int_sqrt_of_square(a: nat)
    ensures
        int_sqrt(a * a) == a,
{
    assert(a * a < (a + 1) * (a + 1)) by (nonlinear_arith);
    lemma_int_sqrt_unique(a * a, a);
}

/// Within the range of numbers, sums, differences and negations are exact,
/// and what was added can be taken off again.
pub proof fn lemma_exact_in_range(a: Fixed, b: Fixed)
    ensures
        fits(a@ + b@) ==> a.add_spec(b)@ == a@ + b@,
        fits(a@ - b@) ==> a.sub_spec(b)@ == a@ - b@,
        fits(-a@) ==> a.neg_spec()@ == -a@,
        fits(a@ + b@) ==> a.add_spec(b).sub_spec(b) == a,
        a.add_spec(b) == b.add_spec(a),
        a.mul_spec(b) == b.mul_spec(a),
{
    assert(a@ * b@ == b@ * a@) by (nonlinear_arith);
}

/// Sums and differences never run the wrong way: adding more gives no
/// less, even where the result saturates.
pub proof fn lemma_add_monotone(a: Fixed, b: Fixed, c: Fixed)
    requires
        b@ <= c@,
    ensures
        a.add_spec(b)@ <= a.add_spec(c)@,
        b.sub_spec(a)@ <= c.sub_spec(a)@,
        a.sub_spec(c)@ <= a.sub_spec(b)@,
{
}

/// The integer square root of `n`, by bisection.
pub fn isqrt(n: u128) -> (r: u128)
    ensures
        is_int_sqrt(n as nat, r as nat),
        r as nat == int_sqrt(n as nat),
        r < 0x1_0000_0000_0000_0000,
{
    let mut lo: u128 = 0;
    let mut hi: u128 = 0x1_0000_0000_0000_0000;
    assert(0x1_0000_0000_0000_0000int * 0x1_0000_0000_0000_0000int
        == 0x1_0000_0000_0000_0000_0000_0000_0000_0000int) by (nonlinear_arith);
    while hi - lo > 1
        invariant
            lo < hi <= 0x1_0000_0000_0000_0000,
            lo * lo <= n < hi * hi,
        decreases hi - lo,
    {
        let mid: u128 = lo + (hi - lo) / 2;
        assert(mid * mid <= 0xffff_ffff_ffff_ffffint * 0xffff_ffff_ffff_ffffint)
            by (nonlinear_arith)
            requires
                0 <= mid <= 0xffff_ffff_ffff_ffff,
        ;
        assert(0xffff_ffff_ffff_ffffint * 0xffff_ffff_ffff_ffffint
            < 0x1_0000_0000_0000_0000_0000_0000_0000_0000int) by (nonlinear_arith);
        if mid * mid <= n {
            lo = mid;
        } else {
            hi = mid;
        }
    }
    proof {
        lemma_int_sqrt_unique(n as nat, lo as nat);
    }
    lo
}

impl vstd::std_specs::ops::AddSpecImpl for Fixed {
    open spec fn obeys_add_spec() -> bool {
        true
    }

    open spec fn add_req(self, rhs: Fixed) -> bool {
        true
    }

    open spec fn add_spec(self, rhs: Fixed) -> Fixed {
        Fixed { raw: saturate(self@ + rhs@) as i64 }
    }
}

impl Add for Fixed {
    type Output = Fixed;

    fn add(self, rhs: Fixed) -> Fixed {
        let wide: i128 = self.raw as i128 + rhs.raw as i128;
        Fixed { raw: narrow(wide) }
    }
}

impl vstd::std_specs::ops::SubSpecImpl for Fixed {
    open spec fn obeys_sub_spec() -> bool {
        true
    }

    open spec fn sub_req(self, rhs: Fixed) -> bool {
        true
    }

    open spec fn sub_spec(self, rhs: Fixed) -> Fixed {
        Fixed { raw: saturate(self@ - rhs@) as i64 }
    }
}

impl Sub for Fixed {
    type Output = Fixed;

    fn sub(self, rhs: Fixed) -> Fixed {
        let wide: i128 = self.raw as i128 - rhs.raw as i128;
        Fixed { raw: narrow(wide) }
    }
}

impl vstd::std_specs::ops::NegSpecImpl for Fixed {
    open spec fn obeys_neg_spec() -> bool {
        true
    }

    open spec fn neg_req(self) -> bool {
        true
    }

    open spec fn neg_spec(self) -> Fixed {
        Fixed { raw: saturate(-self@) as i64 }
    }
}

impl Neg for Fixed {
    type Output = Fixed;

    fn neg(self) -> Fixed {
        let wide: i128 = -(self.raw as i128);
        Fixed { raw: narrow(wide) }
    }
}

impl vstd::std_specs::ops::MulSpecImpl for Fixed {
    open spec fn obeys_mul_spec() -> bool {
        true
    }

    open spec fn mul_req(self, rhs: Fixed) -> bool {
        true
    }

    open spec fn mul_spec(self, rhs: Fixed) -> Fixed {
        Fixed { raw: saturate(trunc_div(self@ * rhs@, SCALE as int)) as i64 }
    }
}

impl Mul for Fixed {
    type Output = Fixed;

    fn mul(self, rhs: Fixed) -> Fixed {
        let a: i128 = self.raw as i128;
        let b: i128 = rhs.raw as i128;
        assert(-0x4000_0000_0000_0000_0000_0000_0000_0000 <= a * b
            <= 0x4000_0000_0000_0000_0000_0000_0000_0000) by (nonlinear_arith)
            requires
                -0x8000_0000_0000_0000 <= a <= 0x7fff_ffff_ffff_ffff,
                -0x8000_0000_0000_0000 <= b <= 0x7fff_ffff_ffff_ffff,
        ;
        let wide: i128 = (a * b) / 1_000_000;
        Fixed { raw: narrow(wide) }
    }
}

impl vstd::std_specs::ops::DivSpecImpl for Fixed {
    open spec fn obeys_div_spec() -> bool {
        true
    }

    open spec fn div_req(self, rhs: Fixed) -> bool {
        rhs@ != 0
    }

    open spec fn div_spec(self, rhs: Fixed) -> Fixed {
        Fixed { raw: saturate(trunc_div(self@ * SCALE, rhs@)) as i64 }
    }
}

impl Div for Fixed {
    type Output = Fixed;

    fn div(self, rhs: Fixed) -> Fixed {
        let a: i128 = self.raw as i128;
        let b: i128 = rhs.raw as i128;
        let n: i128 = a * 1_000_000;
        let wide: i128 = if b > 0 {
            n / b
        } else {
            (-n) / (-b)
        };
        Fixed { raw: narrow(wide) }
    }
}

} // verus!
