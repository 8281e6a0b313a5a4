use vstd::prelude::*;
use crate::num::{One, Scalar, Zero, i64_from_i128, trunc_div};

verus! {

/// What the scalar one of `Fixed` stands for: a billion steps.
pub const FIXED_UNIT: i64 = 1_000_000_000;

/// The difference from which two `Fixed` are no longer approximately
/// equal: a millionth.
pub const FIXED_EPSILON: i64 = 1_000;

/// A decimal fixed-point number with nine fractional digits: the number
/// `raw / 1_000_000_000`.
///
/// Sums and differences are exact. A product and a quotient are rounded
/// toward zero to the ninth digit.
#[derive(Debug, Clone, Copy, PartialEq, Eq, PartialOrd, Ord, Hash, Structural)]
pub struct Fixed {
    pub raw: i64,
}

impl Fixed {
    /// The number `raw / 1_000_000_000`.
    pub fn from_raw(raw: i64) -> (r: Fixed)
        ensures
            r.raw == raw,
    {
        Fixed { raw }
    }

    /// The whole number `n`.
    pub fn from_int(n: i32) -> (r: Fixed)
        ensures
            r.raw == n * FIXED_UNIT,
    {
        assert(-0x8000_0000 * 1_000_000_000 <= n * 1_000_000_000 <= 0x8000_0000 * 1_000_000_000);
        let wide: i64 = n as i64;
        Fixed { raw: wide * FIXED_UNIT }
    }

    /// The number of billionths.
    pub fn raw(&self) -> (r: i64)
        ensures
            r == self.raw,
    {
        self.raw
    }
}

impl Zero for Fixed {
    open spec fn zero_spec() -> Fixed {
        Fixed { raw: 0 }
    }

    fn zero() -> Fixed {
        Fixed { raw: 0 }
    }
}

impl One for Fixed {
    open spec fn one_spec() -> Fixed {
        Fixed { raw: FIXED_UNIT }
    }

    fn one() -> Fixed {
        Fixed { raw: FIXED_UNIT }
    }
}

/// A multiple of a positive integer, divided by it toward zero, is the multiplier.
pub proof fn lemma_trunc_div_multiple(a: int, u: int)
    requires
        u > 0,
    ensures
        trunc_div(a * u, u) == a,
        trunc_div(u * a, u) == a,
{
    assert(u * a == a * u) by (nonlinear_arith);
    if a >= 0 {
        assert(a * u >= 0 && (a * u) / u == a) by (nonlinear_arith)
            requires
                a >= 0,
                u > 0,
        ;
    } else {
        assert(a * u < 0 && -(a * u) == (-a) * u && ((-a) * u) / u == -a) by (nonlinear_arith)
            requires
                a < 0,
                u > 0,
        ;
    }
}

impl Scalar for Fixed {
    open spec fn val(self) -> int {
        self.raw as int
    }

    open spec fn least() -> int {
        i64::MIN as int
    }

    open spec fn greatest() -> int {
        i64::MAX as int
    }

    open spec fn of(v: int) -> Fixed {
        Fixed { raw: v as i64 }
    }

    open spec fn unit() -> int {
        1_000_000_000
    }

    open spec fn epsilon() -> int {
        1_000
    }

    /// The product of the two numbers, rounded toward zero to a billionth.
    open spec fn mul_val(a: int, b: int) -> int {
        trunc_div(a * b, 1_000_000_000)
    }

    /// The quotient of the two numbers, rounded toward zero to a billionth.
    open spec fn div_val(a: int, b: int) -> int {
        trunc_div(a * 1_000_000_000, b)
    }

    open spec fn floor_val(v: int) -> int {
        v - v % 1_000_000_000
    }

    open spec fn ceil_val(v: int) -> int {
        v + (-v) % 1_000_000_000
    }

    open spec fn round_val(v: int) -> int {
        (v + 500_000_000) - (v + 500_000_000) % 1_000_000_000
    }

    proof fn lemma_val(x: Fixed) {
    }

    proof fn lemma_of(v: int) {
    }

    proof fn lemma_units() {
    }

    proof fn lemma_mul_val(a: int) {
        lemma_trunc_div_multiple(a, 1_000_000_000);
        assert(a * 0 == 0 && 0 * a == 0) by (nonlinear_arith);
    }

    proof fn lemma_div_val(a: int) {
        lemma_trunc_div_multiple(a, 1_000_000_000);
    }

    proof fn lemma_rounding(v: int) {
    }

    fn add(self, rhs: Fixed) -> Fixed {
        Fixed { raw: self.raw + rhs.raw }
    }

    fn sub(self, rhs: Fixed) -> Fixed {
        Fixed { raw: self.raw - rhs.raw }
    }

    fn mul(self, rhs: Fixed) -> Fixed {
        let a: i128 = self.raw as i128;
        let b: i128 = rhs.raw as i128;
        assert(-0x4000_0000_0000_0000_0000_0000_0000_0000 <= a * b
            <= 0x4000_0000_0000_0000_0000_0000_0000_0000) by (nonlinear_arith)
            requires
                -0x8000_0000_0000_0000 <= a <= 0x8000_0000_0000_0000,
                -0x8000_0000_0000_0000 <= b <= 0x8000_0000_0000_0000,
        ;
        let p: i128 = a * b;
        let q: i128 = p / (FIXED_UNIT as i128);
        Fixed { raw: q as i64 }
    }

    fn div(self, rhs: Fixed) -> Fixed {
        let a: i128 = self.raw as i128;
        let b: i128 = rhs.raw as i128;
        let p: i128 = a * (FIXED_UNIT as i128);
        let q: i128 = p / b;
        Fixed { raw: q as i64 }
    }

    fn neg(self) -> Fixed {
        Fixed { raw: -self.raw }
    }

    fn lt(self, rhs: Fixed) -> bool {
        self.raw < rhs.raw
    }

    fn le(self, rhs: Fixed) -> bool {
        self.raw <= rhs.raw
    }

    fn gt(self, rhs: Fixed) -> bool {
        self.raw > rhs.raw
    }

    fn ge(self, rhs: Fixed) -> bool {
        self.raw >= rhs.raw
    }

    fn eq(self, rhs: Fixed) -> bool {
        self.raw == rhs.raw
    }

    fn approx_eq(self, rhs: Fixed) -> bool {
        let d: i128 = self.raw as i128 - rhs.raw as i128;
        -(FIXED_EPSILON as i128) < d && d < FIXED_EPSILON as i128
    }

    fn floor(self) -> Fixed {
        let r: i64 = self.raw % FIXED_UNIT;
        if r < 0 {
            Fixed { raw: self.raw - r - FIXED_UNIT }
        } else {
            Fixed { raw: self.raw - r }
        }
    }

    fn ceil(self) -> Fixed {
        let r: i64 = self.raw % FIXED_UNIT;
        if r > 0 {
            Fixed { raw: self.raw - r + FIXED_UNIT }
        } else {
            Fixed { raw: self.raw - r }
        }
    }

    fn round(self) -> Fixed {
        let w: i128 = self.raw as i128 + 500_000_000;
        let r: i128 = w % (FIXED_UNIT as i128);
        let f: i128 = if r < 0 {
            w - r - FIXED_UNIT as i128
        } else {
            w - r
        };
        Fixed { raw: f as i64 }
    }

    fn to_wide(self) -> i128 {
        self.raw as i128
    }

    fn from_wide(w: i128) -> Option<Fixed> {
        match i64_from_i128(w) {
            Some(raw) => Some(Fixed { raw }),
            None => None,
        }
    }

    fn unit_wide() -> i128 {
        FIXED_UNIT as i128
    }
}

} // verus!
