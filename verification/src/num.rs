use vstd::prelude::*;

verus! {

/// Quotient of `a` by `b` rounded toward zero, the way machine integers divide.
pub open spec fn trunc_div(a: int, b: int) -> int {
    if a >= 0 {
        a / b
    } else {
        -((-a) / b)
    }
}

/// A type with an additive identity.
pub trait Zero: Sized {
    /// The additive identity.
    spec fn zero_spec() -> Self;

    fn zero() -> (r: Self)
        ensures
            r == Self::zero_spec(),
    ;
}

/// A type with a multiplicative identity.
pub trait One: Sized {
    /// The multiplicative identity.
    spec fn one_spec() -> Self;

    fn one() -> (r: Self)
        ensures
            r == Self::one_spec(),
    ;
}

/// A scalar: a number of a bounded, evenly spaced range.
///
/// Every scalar stands for one integer, `val`, which counts the least steps
/// of the type: sums, differences and comparisons of scalars are those of
/// their integers. The scalar one stands for `unit()`, so an integer type
/// has the unit `1`, and a type with a fractional part has a greater unit.
/// What a product, a quotient and a rounding give is for the type to say,
/// by `mul_val`, `div_val`, `floor_val`, `ceil_val` and `round_val`, within
/// the laws stated here.
///
/// Every geometric type of this crate is generic over a `Scalar`, and every
/// contract speaks of scalars through `val`. An operation is defined exactly
/// when its result lies within `least() ..= greatest()`.
pub trait Scalar: Copy + Zero + One {
    /// The integer this value stands for.
    spec fn val(self) -> int;

    /// The least integer the type can hold.
    spec fn least() -> int;

    /// The greatest integer the type can hold.
    spec fn greatest() -> int;

    /// The value that stands for `v`, where `v` is in range.
    spec fn of(v: int) -> Self;

    /// The integer that the scalar one stands for.
    spec fn unit() -> int;

    /// The least difference at which two scalars are no longer taken as
    /// approximately equal.
    spec fn epsilon() -> int;

    /// The integer of the product of the scalars of `a` and `b`.
    spec fn mul_val(a: int, b: int) -> int;

    /// The integer of the quotient of the scalars of `a` and `b`.
    spec fn div_val(a: int, b: int) -> int;

    /// The integer of the greatest whole scalar not above that of `v`.
    spec fn floor_val(v: int) -> int;

    /// The integer of the least whole scalar not below that of `v`.
    spec fn ceil_val(v: int) -> int;

    /// The integer of the whole scalar nearest to that of `v`, taken as the
    /// floor of the scalar plus one half: half way between two whole
    /// scalars it is the greater, also below zero.
    spec fn round_val(v: int) -> int;

    /// Every value is in range, and is the only value standing for its integer.
    proof fn lemma_val(x: Self)
        ensures
            Self::least() <= x.val() <= Self::greatest(),
            Self::of(x.val()) == x,
    ;

    /// Every integer in range is held by some value.
    proof fn lemma_of(v: int)
        requires
            Self::least() <= v <= Self::greatest(),
        ensures
            Self::of(v).val() == v,
    ;

    /// Zero and one are in range and are what `Zero` and `One` produce; the
    /// range lies within that of 64-bit integers.
    proof fn lemma_units()
        ensures
            Self::zero_spec().val() == 0,
            Self::one_spec().val() == Self::unit(),
            Self::least() <= 0,
            0 < Self::unit() <= Self::greatest(),
            Self::unit() <= 0x4000_0000,
            0 < Self::epsilon(),
            -0x8000_0000_0000_0000 <= Self::least(),
            Self::greatest() <= 0xffff_ffff_ffff_ffff,
    ;

    /// One is neutral for the product, and zero annihilates.
    proof fn lemma_mul_val(a: int)
        ensures
            Self::mul_val(a, Self::unit()) == a,
            Self::mul_val(Self::unit(), a) == a,
            Self::mul_val(a, 0) == 0,
            Self::mul_val(0, a) == 0,
    ;

    /// A quotient by one is the dividend.
    proof fn lemma_div_val(a: int)
        ensures
            Self::div_val(a, Self::unit()) == a,
    ;

    /// The floor is not above and the ceiling not below; they are at most
    /// one unit apart. Rounding is the floor of the scalar plus one half,
    /// and stays between the floor and the ceiling.
    proof fn lemma_rounding(v: int)
        ensures
            v - Self::unit() < Self::floor_val(v) <= v,
            v <= Self::ceil_val(v) < v + Self::unit(),
            Self::ceil_val(v) <= Self::floor_val(v) + Self::unit(),
            Self::round_val(v) == Self::floor_val(v + Self::unit() / 2),
            Self::floor_val(v) <= Self::round_val(v) <= Self::ceil_val(v),
    ;

    fn add(self, rhs: Self) -> (r: Self)
        requires
            Self::least() <= self.val() + rhs.val() <= Self::greatest(),
        ensures
            r.val() == self.val() + rhs.val(),
    ;

    fn sub(self, rhs: Self) -> (r: Self)
        requires
            Self::least() <= self.val() - rhs.val() <= Self::greatest(),
        ensures
            r.val() == self.val() - rhs.val(),
    ;

    fn mul(self, rhs: Self) -> (r: Self)
        requires
            Self::least() <= Self::mul_val(self.val(), rhs.val()) <= Self::greatest(),
        ensures
            r.val() == Self::mul_val(self.val(), rhs.val()),
    ;

    fn div(self, rhs: Self) -> (r: Self)
        requires
            rhs.val() != 0,
            Self::least() <= Self::div_val(self.val(), rhs.val()) <= Self::greatest(),
        ensures
            r.val() == Self::div_val(self.val(), rhs.val()),
    ;

    fn neg(self) -> (r: Self)
        requires
            Self::least() <= -self.val() <= Self::greatest(),
        ensures
            r.val() == -self.val(),
    ;

    fn lt(self, rhs: Self) -> (b: bool)
        ensures
            b == (self.val() < rhs.val()),
    ;

    fn le(self, rhs: Self) -> (b: bool)
        ensures
            b == (self.val() <= rhs.val()),
    ;

    fn gt(self, rhs: Self) -> (b: bool)
        ensures
            b == (self.val() > rhs.val()),
    ;

    fn ge(self, rhs: Self) -> (b: bool)
        ensures
            b == (self.val() >= rhs.val()),
    ;

    fn eq(self, rhs: Self) -> (b: bool)
        ensures
            b == (self.val() == rhs.val()),
    ;

    /// Whether the two scalars differ by less than `epsilon()`.
    fn approx_eq(self, rhs: Self) -> (b: bool)
        ensures
            b == (-Self::epsilon() < self.val() - rhs.val() < Self::epsilon()),
    ;

    /// The greatest whole scalar not above `self`.
    fn floor(self) -> (r: Self)
        requires
            Self::least() <= Self::floor_val(self.val()),
        ensures
            r.val() == Self::floor_val(self.val()),
    ;

    /// The least whole scalar not below `self`.
    fn ceil(self) -> (r: Self)
        requires
            Self::ceil_val(self.val()) <= Self::greatest(),
        ensures
            r.val() == Self::ceil_val(self.val()),
    ;

    /// The floor of `self` plus one half.
    fn round(self) -> (r: Self)
        requires
            Self::least() <= Self::round_val(self.val()) <= Self::greatest(),
        ensures
            r.val() == Self::round_val(self.val()),
    ;

    /// The integer of the value, which 128 bits hold with room to spare.
    fn to_wide(self) -> (w: i128)
        ensures
            w == self.val(),
    ;

    /// The scalar that stands for `w`, if the type can hold it.
    fn from_wide(w: i128) -> (r: Option<Self>)
        ensures
            Self::least() <= w <= Self::greatest() ==> r.is_some() && r.unwrap().val() == w,
            !(Self::least() <= w <= Self::greatest()) ==> r.is_none(),
    ;

    /// The integer of the scalar one.
    fn unit_wide() -> (w: i128)
        ensures
            w == Self::unit(),
    ;
}

/// Whether the scalar type `T` can hold the integer `v`.
pub open spec fn fits<T: Scalar>(v: int) -> bool {
    T::least() <= v <= T::greatest()
}

/// The integer of the scalar two, `one + one`.
pub open spec fn two_val<T: Scalar>() -> int {
    T::unit() + T::unit()
}

/// The integer that a scalar of the integer `v` in the type `T0` has in the
/// type `T1`: the same number in the steps of `T1`, rounded toward zero.
pub open spec fn cast_val<T0: Scalar, T1: Scalar>(v: int) -> int {
    trunc_div(v * T1::unit(), T0::unit())
}

/// Two scalars that stand for the same integer are the same value.
pub proof fn lemma_val_injective<T: Scalar>(a: T, b: T)
    requires
        a.val() == b.val(),
    ensures
        a == b,
{
    T::lemma_val(a);
    T::lemma_val(b);
}

/// Converts a scalar to another scalar type: the same number in the steps
/// of the other type, rounded toward zero, if that type can hold it.
pub fn cast_scalar<T0: Scalar, T1: Scalar>(x: T0) -> (r: Option<T1>)
    ensures
        fits::<T1>(cast_val::<T0, T1>(x.val())) ==> r.is_some() && r.unwrap().val() == cast_val::<
            T0,
            T1,
        >(x.val()),
        !fits::<T1>(cast_val::<T0, T1>(x.val())) ==> r.is_none(),
{
    let w = x.to_wide();
    let u1 = T1::unit_wide();
    let u0 = T0::unit_wide();
    proof {
        T0::lemma_units();
        T1::lemma_units();
        T0::lemma_val(x);
        assert(-0x2000_0000_0000_0000_0000_0000 <= w * u1 <= 0x4000_0000_0000_0000_0000_0000)
            by (nonlinear_arith)
            requires
                -0x8000_0000_0000_0000 <= w <= 0xffff_ffff_ffff_ffff,
                0 < u1 <= 0x4000_0000,
        ;
    }
    let p = w * u1;
    proof {
        if p < 0 {
            assert(0 <= (-(p as int)) / (u0 as int) <= -(p as int)) by (nonlinear_arith)
                requires
                    p < 0,
                    u0 > 0,
            ;
        } else {
            assert(0 <= (p as int) / (u0 as int) <= p as int) by (nonlinear_arith)
                requires
                    p >= 0,
                    u0 > 0,
            ;
        }
    }
    T1::from_wide(p / u0)
}

/// The scalar two, as `one + one`.
pub fn two<T: Scalar>() -> (r: T)
    requires
        fits::<T>(two_val::<T>()),
    ensures
        r.val() == two_val::<T>(),
{
    proof {
        T::lemma_units();
    }
    T::one().add(T::one())
}

/// `<i32 as num_traits::NumCast>::from` applied to an `i128`: the value
/// itself where `i32` can hold it, and nothing where it cannot.
#[verifier::external_body]
pub(crate) fn i32_from_i128(w: i128) -> (r: Option<i32>)
    ensures
        i32::MIN <= w <= i32::MAX ==> r == Some(w as i32),
        !(i32::MIN <= w <= i32::MAX) ==> r.is_none(),
{
    num_traits::NumCast::from(w)
}

impl Zero for i32 {
    open spec fn zero_spec() -> i32 {
        0
    }

    fn zero() -> i32 {
        0
    }
}

impl One for i32 {
    open spec fn one_spec() -> i32 {
        1
    }

    fn one() -> i32 {
        1
    }
}

impl Scalar for i32 {
    open spec fn val(self) -> int {
        self as int
    }

    open spec fn least() -> int {
        i32::MIN as int
    }

    open spec fn greatest() -> int {
        i32::MAX as int
    }

    open spec fn of(v: int) -> i32 {
        v as i32
    }

    open spec fn unit() -> int {
        1
    }

    open spec fn epsilon() -> int {
        1
    }

    open spec fn mul_val(a: int, b: int) -> int {
        a * b
    }

    open spec fn div_val(a: int, b: int) -> int {
        trunc_div(a, b)
    }

    open spec fn floor_val(v: int) -> int {
        v
    }

    open spec fn ceil_val(v: int) -> int {
        v
    }

    open spec fn round_val(v: int) -> int {
        v
    }

    proof fn lemma_val(x: i32) {
    }

    proof fn lemma_of(v: int) {
    }

    proof fn lemma_units() {
    }

    proof fn lemma_mul_val(a: int) {
    }

    proof fn lemma_div_val(a: int) {
    }

    proof fn lemma_rounding(v: int) {
    }

    fn add(self, rhs: i32) -> i32 {
        self + rhs
    }

    fn sub(self, rhs: i32) -> i32 {
        self - rhs
    }

    fn mul(self, rhs: i32) -> i32 {
        self * rhs
    }

    fn div(self, rhs: i32) -> i32 {
        proof {
            if rhs == -1 {
                assert(trunc_div(self as int, -1) == -(self as int));
            }
        }
        self / rhs
    }

    fn neg(self) -> i32 {
        -self
    }

    fn lt(self, rhs: i32) -> bool {
        self < rhs
    }

    fn le(self, rhs: i32) -> bool {
        self <= rhs
    }

    fn gt(self, rhs: i32) -> bool {
        self > rhs
    }

    fn ge(self, rhs: i32) -> bool {
        self >= rhs
    }

    fn eq(self, rhs: i32) -> bool {
        self == rhs
    }

    fn approx_eq(self, rhs: i32) -> bool {
        self == rhs
    }

    fn floor(self) -> i32 {
        self
    }

    fn ceil(self) -> i32 {
        self
    }

    fn round(self) -> i32 {
        self
    }

    fn to_wide(self) -> i128 {
        self as i128
    }

    fn from_wide(w: i128) -> Option<i32> {
        i32_from_i128(w)
    }

    fn unit_wide() -> i128 {
        1
    }
}

/// `<i64 as num_traits::NumCast>::from` applied to an `i128`: the value
/// itself where `i64` can hold it, and nothing where it cannot.
#[verifier::external_body]
pub(crate) fn i64_from_i128(w: i128) -> (r: Option<i64>)
    ensures
        i64::MIN <= w <= i64::MAX ==> r == Some(w as i64),
        !(i64::MIN <= w <= i64::MAX) ==> r.is_none(),
{
    num_traits::NumCast::from(w)
}

impl Zero for i64 {
    open spec fn zero_spec() -> i64 {
        0
    }

    fn zero() -> i64 {
        0
    }
}

impl One for i64 {
    open spec fn one_spec() -> i64 {
        1
    }

    fn one() -> i64 {
        1
    }
}

impl Scalar for i64 {
    open spec fn val(self) -> int {
        self as int
    }

    open spec fn least() -> int {
        i64::MIN as int
    }

    open spec fn greatest() -> int {
        i64::MAX as int
    }

    open spec fn of(v: int) -> i64 {
        v as i64
    }

    open spec fn unit() -> int {
        1
    }

    open spec fn epsilon() -> int {
        1
    }

    open spec fn mul_val(a: int, b: int) -> int {
        a * b
    }

    open spec fn div_val(a: int, b: int) -> int {
        trunc_div(a, b)
    }

    open spec fn floor_val(v: int) -> int {
        v
    }

    open spec fn ceil_val(v: int) -> int {
        v
    }

    open spec fn round_val(v: int) -> int {
        v
    }

    proof fn lemma_val(x: i64) {
    }

    proof fn lemma_of(v: int) {
    }

    proof fn lemma_units() {
    }

    proof fn lemma_mul_val(a: int) {
    }

    proof fn lemma_div_val(a: int) {
    }

    proof fn lemma_rounding(v: int) {
    }

    fn add(self, rhs: i64) -> i64 {
        self + rhs
    }

    fn sub(self, rhs: i64) -> i64 {
        self - rhs
    }

    fn mul(self, rhs: i64) -> i64 {
        self * rhs
    }

    fn div(self, rhs: i64) -> i64 {
        proof {
            if rhs == -1 {
                assert(trunc_div(self as int, -1) == -(self as int));
            }
        }
        self / rhs
    }

    fn neg(self) -> i64 {
        -self
    }

    fn lt(self, rhs: i64) -> bool {
        self < rhs
    }

    fn le(self, rhs: i64) -> bool {
        self <= rhs
    }

    fn gt(self, rhs: i64) -> bool {
        self > rhs
    }

    fn ge(self, rhs: i64) -> bool {
        self >= rhs
    }

    fn eq(self, rhs: i64) -> bool {
        self == rhs
    }

    fn approx_eq(self, rhs: i64) -> bool {
        self == rhs
    }

    fn floor(self) -> i64 {
        self
    }

    fn ceil(self) -> i64 {
        self
    }

    fn round(self) -> i64 {
        self
    }

    fn to_wide(self) -> i128 {
        self as i128
    }

    fn from_wide(w: i128) -> Option<i64> {
        i64_from_i128(w)
    }

    fn unit_wide() -> i128 {
        1
    }
}

/// `<isize as num_traits::NumCast>::from` applied to an `i128`: the value
/// itself where `isize` can hold it, and nothing where it cannot.
#[verifier::external_body]
pub(crate) fn isize_from_i128(w: i128) -> (r: Option<isize>)
    ensures
        isize::MIN <= w <= isize::MAX ==> r == Some(w as isize),
        !(isize::MIN <= w <= isize::MAX) ==> r.is_none(),
{
    num_traits::NumCast::from(w)
}

impl Zero for isize {
    open spec fn zero_spec() -> isize {
        0
    }

    fn zero() -> isize {
        0
    }
}

impl One for isize {
    open spec fn one_spec() -> isize {
        1
    }

    fn one() -> isize {
        1
    }
}

impl Scalar for isize {
    open spec fn val(self) -> int {
        self as int
    }

    open spec fn least() -> int {
        isize::MIN as int
    }

    open spec fn greatest() -> int {
        isize::MAX as int
    }

    open spec fn of(v: int) -> isize {
        v as isize
    }

    open spec fn unit() -> int {
        1
    }

    open spec fn epsilon() -> int {
        1
    }

    open spec fn mul_val(a: int, b: int) -> int {
        a * b
    }

    open spec fn div_val(a: int, b: int) -> int {
        trunc_div(a, b)
    }

    open spec fn floor_val(v: int) -> int {
        v
    }

    open spec fn ceil_val(v: int) -> int {
        v
    }

    open spec fn round_val(v: int) -> int {
        v
    }

    proof fn lemma_val(x: isize) {
    }

    proof fn lemma_of(v: int) {
    }

    proof fn lemma_units() {
    }

    proof fn lemma_mul_val(a: int) {
    }

    proof fn lemma_div_val(a: int) {
    }

    proof fn lemma_rounding(v: int) {
    }

    fn add(self, rhs: isize) -> isize {
        self + rhs
    }

    fn sub(self, rhs: isize) -> isize {
        self - rhs
    }

    fn mul(self, rhs: isize) -> isize {
        self * rhs
    }

    fn div(self, rhs: isize) -> isize {
        proof {
            if rhs == -1 {
                assert(trunc_div(self as int, -1) == -(self as int));
            }
        }
        self / rhs
    }

    fn neg(self) -> isize {
        -self
    }

    fn lt(self, rhs: isize) -> bool {
        self < rhs
    }

    fn le(self, rhs: isize) -> bool {
        self <= rhs
    }

    fn gt(self, rhs: isize) -> bool {
        self > rhs
    }

    fn ge(self, rhs: isize) -> bool {
        self >= rhs
    }

    fn eq(self, rhs: isize) -> bool {
        self == rhs
    }

    fn approx_eq(self, rhs: isize) -> bool {
        self == rhs
    }

    fn floor(self) -> isize {
        self
    }

    fn ceil(self) -> isize {
        self
    }

    fn round(self) -> isize {
        self
    }

    fn to_wide(self) -> i128 {
        self as i128
    }

    fn from_wide(w: i128) -> Option<isize> {
        isize_from_i128(w)
    }

    fn unit_wide() -> i128 {
        1
    }
}

/// `<u32 as num_traits::NumCast>::from` applied to an `i128`: the value
/// itself where `u32` can hold it, and nothing where it cannot.
#[verifier::external_body]
pub(crate) fn u32_from_i128(w: i128) -> (r: Option<u32>)
    ensures
        u32::MIN <= w <= u32::MAX ==> r == Some(w as u32),
        !(u32::MIN <= w <= u32::MAX) ==> r.is_none(),
{
    num_traits::NumCast::from(w)
}

impl Zero for u32 {
    open spec fn zero_spec() -> u32 {
        0
    }

    fn zero() -> u32 {
        0
    }
}

impl One for u32 {
    open spec fn one_spec() -> u32 {
        1
    }

    fn one() -> u32 {
        1
    }
}

impl Scalar for u32 {
    open spec fn val(self) -> int {
        self as int
    }

    open spec fn least() -> int {
        u32::MIN as int
    }

    open spec fn greatest() -> int {
        u32::MAX as int
    }

    open spec fn of(v: int) -> u32 {
        v as u32
    }

    open spec fn unit() -> int {
        1
    }

    open spec fn epsilon() -> int {
        1
    }

    open spec fn mul_val(a: int, b: int) -> int {
        a * b
    }

    open spec fn div_val(a: int, b: int) -> int {
        trunc_div(a, b)
    }

    open spec fn floor_val(v: int) -> int {
        v
    }

    open spec fn ceil_val(v: int) -> int {
        v
    }

    open spec fn round_val(v: int) -> int {
        v
    }

    proof fn lemma_val(x: u32) {
    }

    proof fn lemma_of(v: int) {
    }

    proof fn lemma_units() {
    }

    proof fn lemma_mul_val(a: int) {
    }

    proof fn lemma_div_val(a: int) {
    }

    proof fn lemma_rounding(v: int) {
    }

    fn add(self, rhs: u32) -> u32 {
        self + rhs
    }

    fn sub(self, rhs: u32) -> u32 {
        self - rhs
    }

    fn mul(self, rhs: u32) -> u32 {
        self * rhs
    }

    fn div(self, rhs: u32) -> u32 {
        self / rhs
    }

    fn neg(self) -> u32 {
        self
    }

    fn lt(self, rhs: u32) -> bool {
        self < rhs
    }

    fn le(self, rhs: u32) -> bool {
        self <= rhs
    }

    fn gt(self, rhs: u32) -> bool {
        self > rhs
    }

    fn ge(self, rhs: u32) -> bool {
        self >= rhs
    }

    fn eq(self, rhs: u32) -> bool {
        self == rhs
    }

    fn approx_eq(self, rhs: u32) -> bool {
        self == rhs
    }

    fn floor(self) -> u32 {
        self
    }

    fn ceil(self) -> u32 {
        self
    }

    fn round(self) -> u32 {
        self
    }

    fn to_wide(self) -> i128 {
        self as i128
    }

    fn from_wide(w: i128) -> Option<u32> {
        u32_from_i128(w)
    }

    fn unit_wide() -> i128 {
        1
    }
}

/// `<u64 as num_traits::NumCast>::from` applied to an `i128`: the value
/// itself where `u64` can hold it, and nothing where it cannot.
#[verifier::external_body]
pub(crate) fn u64_from_i128(w: i128) -> (r: Option<u64>)
    ensures
        u64::MIN <= w <= u64::MAX ==> r == Some(w as u64),
        !(u64::MIN <= w <= u64::MAX) ==> r.is_none(),
{
    num_traits::NumCast::from(w)
}

impl Zero for u64 {
    open spec fn zero_spec() -> u64 {
        0
    }

    fn zero() -> u64 {
        0
    }
}

impl One for u64 {
    open spec fn one_spec() -> u64 {
        1
    }

    fn one() -> u64 {
        1
    }
}

impl Scalar for u64 {
    open spec fn val(self) -> int {
        self as int
    }

    open spec fn least() -> int {
        u64::MIN as int
    }

    open spec fn greatest() -> int {
        u64::MAX as int
    }

    open spec fn of(v: int) -> u64 {
        v as u64
    }

    open spec fn unit() -> int {
        1
    }

    open spec fn epsilon() -> int {
        1
    }

    open spec fn mul_val(a: int, b: int) -> int {
        a * b
    }

    open spec fn div_val(a: int, b: int) -> int {
        trunc_div(a, b)
    }

    open spec fn floor_val(v: int) -> int {
        v
    }

    open spec fn ceil_val(v: int) -> int {
        v
    }

    open spec fn round_val(v: int) -> int {
        v
    }

    proof fn lemma_val(x: u64) {
    }

    proof fn lemma_of(v: int) {
    }

    proof fn lemma_units() {
    }

    proof fn lemma_mul_val(a: int) {
    }

    proof fn lemma_div_val(a: int) {
    }

    proof fn lemma_rounding(v: int) {
    }

    fn add(self, rhs: u64) -> u64 {
        self + rhs
    }

    fn sub(self, rhs: u64) -> u64 {
        self - rhs
    }

    fn mul(self, rhs: u64) -> u64 {
        self * rhs
    }

    fn div(self, rhs: u64) -> u64 {
        self / rhs
    }

    fn neg(self) -> u64 {
        self
    }

    fn lt(self, rhs: u64) -> bool {
        self < rhs
    }

    fn le(self, rhs: u64) -> bool {
        self <= rhs
    }

    fn gt(self, rhs: u64) -> bool {
        self > rhs
    }

    fn ge(self, rhs: u64) -> bool {
        self >= rhs
    }

    fn eq(self, rhs: u64) -> bool {
        self == rhs
    }

    fn approx_eq(self, rhs: u64) -> bool {
        self == rhs
    }

    fn floor(self) -> u64 {
        self
    }

    fn ceil(self) -> u64 {
        self
    }

    fn round(self) -> u64 {
        self
    }

    fn to_wide(self) -> i128 {
        self as i128
    }

    fn from_wide(w: i128) -> Option<u64> {
        u64_from_i128(w)
    }

    fn unit_wide() -> i128 {
        1
    }
}

/// `<usize as num_traits::NumCast>::from` applied to an `i128`: the value
/// itself where `usize` can hold it, and nothing where it cannot.
#[verifier::external_body]
pub(crate) fn usize_from_i128(w: i128) -> (r: Option<usize>)
    ensures
        usize::MIN <= w <= usize::MAX ==> r == Some(w as usize),
        !(usize::MIN <= w <= usize::MAX) ==> r.is_none(),
{
    num_traits::NumCast::from(w)
}

impl Zero for usize {
    open spec fn zero_spec() -> usize {
        0
    }

    fn zero() -> usize {
        0
    }
}

impl One for usize {
    open spec fn one_spec() -> usize {
        1
    }

    fn one() -> usize {
        1
    }
}

impl Scalar for usize {
    open spec fn val(self) -> int {
        self as int
    }

    open spec fn least() -> int {
        usize::MIN as int
    }

    open spec fn greatest() -> int {
        usize::MAX as int
    }

    open spec fn of(v: int) -> usize {
        v as usize
    }

    open spec fn unit() -> int {
        1
    }

    open spec fn epsilon() -> int {
        1
    }

    open spec fn mul_val(a: int, b: int) -> int {
        a * b
    }

    open spec fn div_val(a: int, b: int) -> int {
        trunc_div(a, b)
    }

    open spec fn floor_val(v: int) -> int {
        v
    }

    open spec fn ceil_val(v: int) -> int {
        v
    }

    open spec fn round_val(v: int) -> int {
        v
    }

    proof fn lemma_val(x: usize) {
    }

    proof fn lemma_of(v: int) {
    }

    proof fn lemma_units() {
    }

    proof fn lemma_mul_val(a: int) {
    }

    proof fn lemma_div_val(a: int) {
    }

    proof fn lemma_rounding(v: int) {
    }

    fn add(self, rhs: usize) -> usize {
        self + rhs
    }

    fn sub(self, rhs: usize) -> usize {
        self - rhs
    }

    fn mul(self, rhs: usize) -> usize {
        self * rhs
    }

    fn div(self, rhs: usize) -> usize {
        self / rhs
    }

    fn neg(self) -> usize {
        self
    }

    fn lt(self, rhs: usize) -> bool {
        self < rhs
    }

    fn le(self, rhs: usize) -> bool {
        self <= rhs
    }

    fn gt(self, rhs: usize) -> bool {
        self > rhs
    }

    fn ge(self, rhs: usize) -> bool {
        self >= rhs
    }

    fn eq(self, rhs: usize) -> bool {
        self == rhs
    }

    fn approx_eq(self, rhs: usize) -> bool {
        self == rhs
    }

    fn floor(self) -> usize {
        self
    }

    fn ceil(self) -> usize {
        self
    }

    fn round(self) -> usize {
        self
    }

    fn to_wide(self) -> i128 {
        self as i128
    }

    fn from_wide(w: i128) -> Option<usize> {
        usize_from_i128(w)
    }

    fn unit_wide() -> i128 {
        1
    }
}

} // verus!
