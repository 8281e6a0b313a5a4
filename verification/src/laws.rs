//! What holds of the library as a whole: laws that relate several of its
//! functions, each proved from the contracts of the functions it speaks of.
use vstd::prelude::*;
use crate::length::Length;
use crate::matrix2d::TypedMatrix2D;
use crate::matrix4d::TypedMatrix4D;
use crate::fixed::Fixed;
use crate::model::{Box2, Box3, Cuboid3, Mat2, Mat4, Point3, Quat, Rect2, Rigid3, Size2, greater, lesser};
use crate::num::One;
use crate::rect::TypedRect;
use crate::rigid::TypedRigidTransform3D;
use crate::rotation::TypedRotation3D;
use crate::vector::TypedVector3D;
use crate::num::{Scalar, cast_val, lemma_val_injective, trunc_div};
use crate::point::{Point2D, Point3D, TypedPoint2D, TypedPoint3D};
use crate::scale_factor::ScaleFactor;

verus! {

/// Tagging a scalar as a length and taking the scalar out again gives the
/// scalar back: whatever `Length::new` makes of `x`, `get` returns `x` from it.
pub proof fn law_length_new_get<Unit, T: Copy>(x: T, l: Length<Unit, T>, y: T)
    requires
        call_ensures(Length::<Unit, T>::new, (x,), l),
        call_ensures(Length::<Unit, T>::get, (&l,), y),
    ensures
        y == x,
{
}

/// Dropping the unit of a 2d point and tagging the result with the unit
/// again recovers the point exactly.
pub proof fn law_point2d_untyped_round_trip<T: Scalar, U>(
    p: TypedPoint2D<T, U>,
    u: Point2D<T>,
    q: TypedPoint2D<T, U>,
)
    requires
        call_ensures(TypedPoint2D::<T, U>::to_untyped, (&p,), u),
        call_ensures(TypedPoint2D::<T, U>::from_untyped, (&u,), q),
    ensures
        q == p,
{
}

/// Dropping the unit of a 3d point and tagging the result with the unit
/// again recovers the point exactly.
pub proof fn law_point3d_untyped_round_trip<T: Scalar, U>(
    p: TypedPoint3D<T, U>,
    u: Point3D<T>,
    q: TypedPoint3D<T, U>,
)
    requires
        call_ensures(TypedPoint3D::<T, U>::to_untyped, (&p,), u),
        call_ensures(TypedPoint3D::<T, U>::from_untyped, (&u,), q),
    ensures
        q == p,
{
}

/// The scalar of a product of two scale factors is the product of their
/// scalars: multiplying the factors and then taking the scalar, `g`, gives
/// what taking the scalars, `a` and `b`, and then multiplying them gives, `m`.
pub proof fn law_scale_factor_composition<A, B, C, T: Scalar>(
    s1: ScaleFactor<A, B, T>,
    s2: ScaleFactor<B, C, T>,
    p: ScaleFactor<A, C, T>,
    g: T,
    a: T,
    b: T,
    m: T,
)
    requires
        call_ensures(
            <ScaleFactor<A, B, T> as core::ops::Mul<ScaleFactor<B, C, T>>>::mul,
            (s1, s2),
            p,
        ),
        call_ensures(ScaleFactor::<A, C, T>::get, (&p,), g),
        call_ensures(ScaleFactor::<A, B, T>::get, (&s1,), a),
        call_ensures(ScaleFactor::<B, C, T>::get, (&s2,), b),
        call_ensures(T::mul, (a, b), m),
    ensures
        g == m,
        p@ == T::mul_val(s1@, s2@),
{
    lemma_val_injective(g, m);
}

/// The inverse of the inverse of the scale factor one is one again.
pub proof fn law_scale_factor_one_inv_inv<A, B, T: Scalar>(
    s: ScaleFactor<A, B, T>,
    i: ScaleFactor<B, A, T>,
    ii: ScaleFactor<A, B, T>,
)
    requires
        s@ == T::unit(),
        call_ensures(ScaleFactor::<A, B, T>::inv, (&s,), i),
        call_ensures(ScaleFactor::<B, A, T>::inv, (&i,), ii),
    ensures
        ii == s,
{
    T::lemma_div_val(T::unit());
    lemma_val_injective(ii.0, s.0);
}

/// Between two scalar types of one unit, such as two integer types, a cast
/// keeps the number: it succeeds exactly when the other type can hold it.
pub proof fn law_cast_same_unit<T0: Scalar, T1: Scalar>(v: int)
    requires
        T0::unit() == T1::unit(),
    ensures
        cast_val::<T0, T1>(v) == v,
{
    T0::lemma_units();
    let u = T0::unit();
    if v >= 0 {
        assert((v * u) / u == v) by (nonlinear_arith)
            requires
                u > 0,
        ;
        assert(v * u >= 0) by (nonlinear_arith)
            requires
                v >= 0,
                u > 0,
        ;
    } else {
        assert(((-v) * u) / u == -v) by (nonlinear_arith)
            requires
                u > 0,
        ;
        assert(v * u < 0 && -(v * u) == (-v) * u) by (nonlinear_arith)
            requires
                v < 0,
                u > 0,
        ;
    }
}

/// Over integral scalars, the inverse of the inverse of the scale factor
/// `1` or `-1` is the factor again.
pub proof fn law_scale_factor_integral_inv_inv<A, B, T: Scalar>(
    s: ScaleFactor<A, B, T>,
    i: ScaleFactor<B, A, T>,
    ii: ScaleFactor<A, B, T>,
)
    requires
        integral::<T>(),
        s@ == 1 || s@ == -1,
        call_ensures(ScaleFactor::<A, B, T>::inv, (&s,), i),
        call_ensures(ScaleFactor::<B, A, T>::inv, (&i,), ii),
    ensures
        ii == s,
{
    assert(1int / 1 == 1);
    assert(1int / (-1int) == -1) by (nonlinear_arith);
    lemma_val_injective(ii.0, s.0);
}

/// For the decimal scalar, the inverse of the inverse of a scale factor
/// that is not zero and of a magnitude of at most thirty-one is
/// approximately the factor: no nearer to zero than the factor, and less
/// than the scalar's epsilon beyond it. Where the magnitude is at most one,
/// it is the factor itself. Both inverses are defined.
pub proof fn law_scale_factor_decimal_inv_inv<A, B>(
    s: ScaleFactor<A, B, Fixed>,
    i: ScaleFactor<B, A, Fixed>,
    ii: ScaleFactor<A, B, Fixed>,
)
    requires
        s@ != 0,
        -31_000_000_000 <= s@ <= 31_000_000_000,
        call_ensures(ScaleFactor::<A, B, Fixed>::inv, (&s,), i),
        call_ensures(ScaleFactor::<B, A, Fixed>::inv, (&i,), ii),
    ensures
        i@ != 0,
        -1_000_000_000_000_000_000 <= i@ <= 1_000_000_000_000_000_000,
        s@ > 0 ==> s@ <= ii@ < s@ + Fixed::epsilon(),
        s@ < 0 ==> s@ - Fixed::epsilon() < ii@ <= s@,
        -Fixed::epsilon() < ii@ - s@ < Fixed::epsilon(),
        -1_000_000_000 <= s@ <= 1_000_000_000 ==> ii == s,
{
    let u: int = 1_000_000_000_000_000_000;
    assert(1_000_000_000int * 1_000_000_000 == u);
    assert(i@ == trunc_div(u, s@));
    assert(ii@ == trunc_div(u, i@));
    if s@ > 0 {
        lemma_quotient_of_quotient(u, s@);
    } else {
        lemma_quotient_by_negative(u, s@);
        lemma_quotient_of_quotient(u, -s@);
        lemma_quotient_by_negative(u, i@);
    }
    if -1_000_000_000 <= s@ <= 1_000_000_000 {
        lemma_val_injective(ii.0, s.0);
    }
}

/// Dividing a billion billion by a positive integer of at most thirty-one
/// billion, and dividing it by the quotient again, comes back to the integer
/// or to less than a thousand above it; and to the integer itself where that
/// is at most a billion.
proof fn lemma_quotient_of_quotient(u: int, s: int)
    requires
        u == 1_000_000_000_000_000_000,
        0 < s <= 31_000_000_000,
    ensures
        32_258_064 <= u / s <= u,
        s <= u / (u / s) < s + 1_000,
        s <= 1_000_000_000 ==> u / (u / s) == s,
{
    let i = u / s;
    assert(i * s <= u < i * s + s) by (nonlinear_arith)
        requires
            i == u / s,
            s > 0,
    ;
    assert(i >= 32_258_064) by (nonlinear_arith)
        requires
            u < i * s + s,
            u == 1_000_000_000_000_000_000,
            0 < s <= 31_000_000_000,
    ;
    assert(i <= u) by (nonlinear_arith)
        requires
            i * s <= u,
            s >= 1,
            i >= 0,
    ;
    let ii = u / i;
    assert(ii * i <= u < ii * i + i) by (nonlinear_arith)
        requires
            ii == u / i,
            i > 0,
    ;
    assert(ii >= s) by (nonlinear_arith)
        requires
            i * s <= u,
            u < ii * i + i,
            i > 0,
    ;
    assert(ii < s + 1_000) by (nonlinear_arith)
        requires
            ii * i <= u,
            u < i * s + s,
            i >= 32_258_064,
            0 < s <= 31_000_000_000,
    ;
    if s <= 1_000_000_000 {
        assert(i >= s) by (nonlinear_arith)
            requires
                u < i * s + s,
                u == 1_000_000_000_000_000_000,
                0 < s <= 1_000_000_000,
        ;
        assert(ii <= s) by (nonlinear_arith)
            requires
                ii * i <= u,
                u < i * s + s,
                i >= s,
                s > 0,
        ;
    }
}

/// The quotient of an integer that is not negative by a negative integer
/// is the negative of its quotient by the integer's magnitude.
proof fn lemma_quotient_by_negative(u: int, s: int)
    requires
        u >= 0,
        s < 0,
    ensures
        u / s == -(u / (-s)),
{
    let q = u / (-s);
    let r = u % (-s);
    assert(u == (-s) * q + r && 0 <= r < -s) by (nonlinear_arith)
        requires
            q == u / (-s),
            r == u % (-s),
            s < 0,
    ;
    assert(u / s == -q) by (nonlinear_arith)
        requires
            u == (-s) * q + r,
            0 <= r < -s,
            s < 0,
    ;
}

/// The identity is neutral for the composition of 2d transformations, on
/// either side, and composing with it is defined for every matrix of `T`.
pub proof fn law_matrix2d_identity<T: Scalar>(m: Mat2)
    ensures
        m.post_mul::<T>(Mat2::identity::<T>()) == m,
        Mat2::identity::<T>().post_mul::<T>(m) == m,
        m.pre_mul::<T>(Mat2::identity::<T>()) == m,
        m.fits::<T>() ==> m.post_mul_fits::<T>(Mat2::identity::<T>()) && Mat2::identity::<
            T,
        >().post_mul_fits::<T>(m),
{
    T::lemma_units();
    T::lemma_mul_val(m.m11);
    T::lemma_mul_val(m.m12);
    T::lemma_mul_val(m.m21);
    T::lemma_mul_val(m.m22);
    T::lemma_mul_val(m.m31);
    T::lemma_mul_val(m.m32);
}

/// The identity is neutral for the product of 3d transformations, on either
/// side, and the product with it is defined for every matrix of `T`.
pub proof fn law_matrix4d_identity<T: Scalar>(m: Mat4)
    ensures
        m.product::<T>(Mat4::identity::<T>()) == m,
        Mat4::identity::<T>().product::<T>(m) == m,
        m.fits::<T>() ==> m.product_fits::<T>(Mat4::identity::<T>()) && Mat4::identity::<
            T,
        >().product_fits::<T>(m),
{
    T::lemma_units();
    T::lemma_mul_val(m.m11);
    T::lemma_mul_val(m.m12);
    T::lemma_mul_val(m.m13);
    T::lemma_mul_val(m.m14);
    T::lemma_mul_val(m.m21);
    T::lemma_mul_val(m.m22);
    T::lemma_mul_val(m.m23);
    T::lemma_mul_val(m.m24);
    T::lemma_mul_val(m.m31);
    T::lemma_mul_val(m.m32);
    T::lemma_mul_val(m.m33);
    T::lemma_mul_val(m.m34);
    T::lemma_mul_val(m.m41);
    T::lemma_mul_val(m.m42);
    T::lemma_mul_val(m.m43);
    T::lemma_mul_val(m.m44);
}

/// A 2d transformation composed with the identity, before or after, is the
/// transformation again: whatever `identity` and `post_mul` return.
pub proof fn law_matrix2d_post_mul_identity<T: Scalar, Src, Dst>(
    m: TypedMatrix2D<T, Src, Dst>,
    after: TypedMatrix2D<T, Dst, Dst>,
    before: TypedMatrix2D<T, Src, Src>,
    r1: TypedMatrix2D<T, Src, Dst>,
    r2: TypedMatrix2D<T, Src, Dst>,
)
    requires
        call_ensures(TypedMatrix2D::<T, Dst, Dst>::identity, (), after),
        call_ensures(TypedMatrix2D::<T, Src, Src>::identity, (), before),
        call_ensures(TypedMatrix2D::<T, Src, Dst>::post_mul::<Dst>, (&m, &after), r1),
        call_ensures(TypedMatrix2D::<T, Src, Src>::post_mul::<Dst>, (&before, &m), r2),
    ensures
        r1 == m,
        r2 == m,
{
    law_matrix2d_identity::<T>(m@);
    lemma_val_injective(r1.m11, m.m11);
    lemma_val_injective(r1.m12, m.m12);
    lemma_val_injective(r1.m21, m.m21);
    lemma_val_injective(r1.m22, m.m22);
    lemma_val_injective(r1.m31, m.m31);
    lemma_val_injective(r1.m32, m.m32);
    lemma_val_injective(r2.m11, m.m11);
    lemma_val_injective(r2.m12, m.m12);
    lemma_val_injective(r2.m21, m.m21);
    lemma_val_injective(r2.m22, m.m22);
    lemma_val_injective(r2.m31, m.m31);
    lemma_val_injective(r2.m32, m.m32);
}

/// A 3d transformation composed with the identity, before or after, is the
/// transformation again: whatever `identity` and `post_mul` return.
pub proof fn law_matrix4d_post_mul_identity<T: Scalar, Src, Dst>(
    m: TypedMatrix4D<T, Src, Dst>,
    after: TypedMatrix4D<T, Dst, Dst>,
    before: TypedMatrix4D<T, Src, Src>,
    r1: TypedMatrix4D<T, Src, Dst>,
    r2: TypedMatrix4D<T, Src, Dst>,
)
    requires
        call_ensures(TypedMatrix4D::<T, Dst, Dst>::identity, (), after),
        call_ensures(TypedMatrix4D::<T, Src, Src>::identity, (), before),
        call_ensures(TypedMatrix4D::<T, Src, Dst>::post_mul::<Dst>, (&m, &after), r1),
        call_ensures(TypedMatrix4D::<T, Src, Src>::post_mul::<Dst>, (&before, &m), r2),
    ensures
        r1 == m,
        r2 == m,
{
    law_matrix4d_identity::<T>(m@);
    m.lemma_view();
    r1.lemma_view();
    r2.lemma_view();
}

/// Two rectangles have an intersection exactly when they intersect; the
/// intersection lies within both, and the union holds both.
pub proof fn law_rect_union_intersection(a: Rect2, b: Rect2)
    ensures
        a.intersection(b).is_none() <==> !a.intersects(b),
        a.intersects(b) ==> a.contains_rect(a.intersection(b).unwrap()) && b.contains_rect(
            a.intersection(b).unwrap(),
        ),
        a.union(b).contains_rect(a),
        a.union(b).contains_rect(b),
{
}

/// Two boxes have an intersection exactly when they intersect; the
/// intersection lies within both, and the union holds both. The overlap of
/// two boxes of positive extents has positive extents exactly when they
/// intersect.
pub proof fn law_box2d_union_intersection(a: Box2, b: Box2)
    ensures
        a.intersection(b).is_none() <==> !a.intersects(b),
        a.contains_box(a.overlap(b)),
        b.contains_box(a.overlap(b)),
        a.union(b).contains_box(a),
        a.union(b).contains_box(b),
        !a.is_empty_or_negative() && !b.is_empty_or_negative() ==> (a.overlap(
            b,
        ).is_empty_or_negative() <==> !a.intersects(b)),
{
}

/// Two boxes have an intersection exactly when they intersect; the
/// intersection lies within both, and the union holds both.
pub proof fn law_box3d_union_intersection(a: Box3, b: Box3)
    ensures
        a.intersection(b).is_none() <==> !a.intersects(b),
        a.intersects(b) ==> a.contains_box(a.intersection(b).unwrap()) && b.contains_box(
            a.intersection(b).unwrap(),
        ),
        a.union(b).contains_box(a),
        a.union(b).contains_box(b),
{
}

/// Two cuboids have an intersection exactly when they intersect; the
/// intersection lies within both, and the union holds both.
pub proof fn law_cuboid_union_intersection(a: Cuboid3, b: Cuboid3)
    ensures
        a.intersection(b).is_none() <==> !a.intersects(b),
        a.intersects(b) ==> a.contains_box(a.intersection(b).unwrap()) && b.contains_box(
            a.intersection(b).unwrap(),
        ),
        a.union(b).contains_box(a),
        a.union(b).contains_box(b),
{
}

/// A rectangle holds what it is rounded inward to and lies within what it is
/// rounded outward to. Grown by one on every side it holds what it is
/// rounded to, and what it is rounded to, grown by one on every side, holds
/// the rectangle, what it is rounded inward to and what it is rounded
/// outward to.
pub proof fn law_rect_rounding<T: Scalar>(r: Rect2)
    ensures
        r.contains_rect(r.round_in::<T>()),
        r.round_out::<T>().contains_rect(r),
        r.inflate(T::unit(), T::unit()).contains_rect(r.round::<T>()),
        r.round::<T>().inflate(T::unit(), T::unit()).contains_rect(r),
        r.round::<T>().inflate(T::unit(), T::unit()).contains_rect(r.round_in::<T>()),
        r.round::<T>().inflate(T::unit(), T::unit()).contains_rect(r.round_out::<T>()),
{
    T::lemma_units();
    T::lemma_rounding(r.min_x());
    T::lemma_rounding(r.min_y());
    T::lemma_rounding(r.max_x());
    T::lemma_rounding(r.max_y());
}

/// A 3d box holds what it is rounded inward to and lies within what it is
/// rounded outward to.
pub proof fn law_box3d_rounding<T: Scalar>(b: Box3)
    ensures
        b.contains_box(b.round_in::<T>()),
        b.round_out::<T>().contains_box(b),
{
    T::lemma_rounding(b.min_x());
    T::lemma_rounding(b.min_y());
    T::lemma_rounding(b.min_z());
    T::lemma_rounding(b.max_x());
    T::lemma_rounding(b.max_y());
    T::lemma_rounding(b.max_z());
}

/// A cuboid holds what it is rounded inward to and lies within what it is
/// rounded outward to.
pub proof fn law_cuboid_rounding<T: Scalar>(c: Cuboid3)
    ensures
        c.contains_box(c.round_in::<T>()),
        c.round_out::<T>().contains_box(c),
{
    T::lemma_rounding(c.min_x());
    T::lemma_rounding(c.min_y());
    T::lemma_rounding(c.min_z());
    T::lemma_rounding(c.max_x());
    T::lemma_rounding(c.max_y());
    T::lemma_rounding(c.max_z());
}

/// The union of two rectangles, neither of the size zero, reaches from the
/// lesser of their near edges to the greater of their far edges, and holds
/// both: whatever `union` returns.
pub proof fn law_rect_union_is_the_envelope<T: Scalar, U>(
    a: TypedRect<T, U>,
    b: TypedRect<T, U>,
    u: TypedRect<T, U>,
)
    requires
        a@.size != Size2::zero(),
        b@.size != Size2::zero(),
        call_ensures(TypedRect::<T, U>::union, (&a, &b), u),
    ensures
        u@.contains_rect(a@),
        u@.contains_rect(b@),
        u@.min_x() == lesser(a@.min_x(), b@.min_x()),
        u@.min_y() == lesser(a@.min_y(), b@.min_y()),
        u@.max_x() == greater(a@.max_x(), b@.max_x()),
        u@.max_y() == greater(a@.max_y(), b@.max_y()),
{
}

/// What a rectangle is rounded inward to lies within the rectangle, and has
/// the ceiling of its near edges and the floor of its far edges: whatever
/// `round_in` returns.
pub proof fn law_rect_round_in<T: Scalar, U>(r: TypedRect<T, U>, q: TypedRect<T, U>)
    requires
        call_ensures(TypedRect::<T, U>::round_in, (&r,), q),
    ensures
        r@.contains_rect(q@),
        q@.min_x() == T::ceil_val(r@.min_x()),
        q@.min_y() == T::ceil_val(r@.min_y()),
        q@.max_x() == T::floor_val(r@.max_x()),
        q@.max_y() == T::floor_val(r@.max_y()),
{
    law_rect_rounding::<T>(r@);
}

/// What a rectangle is rounded outward to holds the rectangle, and has the
/// floor of its near edges and the ceiling of its far edges: whatever
/// `round_out` returns.
pub proof fn law_rect_round_out<T: Scalar, U>(r: TypedRect<T, U>, q: TypedRect<T, U>)
    requires
        call_ensures(TypedRect::<T, U>::round_out, (&r,), q),
    ensures
        q@.contains_rect(r@),
        q@.min_x() == T::floor_val(r@.min_x()),
        q@.min_y() == T::floor_val(r@.min_y()),
        q@.max_x() == T::ceil_val(r@.max_x()),
        q@.max_y() == T::ceil_val(r@.max_y()),
{
    law_rect_rounding::<T>(r@);
}

/// Every edge of what a rectangle is rounded to is the floor of the edge
/// plus one half. Grown by one on every side, `grown`, it holds the
/// rectangle, what the rectangle is rounded inward to and what it is rounded
/// outward to; and the rectangle grown by one, `around`, holds it: whatever
/// `round`, `round_in`, `round_out`, `one` and `inflate` return.
pub proof fn law_rect_round<T: Scalar, U>(
    r: TypedRect<T, U>,
    q: TypedRect<T, U>,
    inward: TypedRect<T, U>,
    outward: TypedRect<T, U>,
    one: T,
    grown: TypedRect<T, U>,
    around: TypedRect<T, U>,
)
    requires
        call_ensures(TypedRect::<T, U>::round, (&r,), q),
        call_ensures(TypedRect::<T, U>::round_in, (&r,), inward),
        call_ensures(TypedRect::<T, U>::round_out, (&r,), outward),
        call_ensures(<T as One>::one, (), one),
        call_ensures(TypedRect::<T, U>::inflate, (&q, one, one), grown),
        call_ensures(TypedRect::<T, U>::inflate, (&r, one, one), around),
    ensures
        q@.min_x() == T::floor_val(r@.min_x() + T::unit() / 2),
        q@.min_y() == T::floor_val(r@.min_y() + T::unit() / 2),
        q@.max_x() == T::floor_val(r@.max_x() + T::unit() / 2),
        q@.max_y() == T::floor_val(r@.max_y() + T::unit() / 2),
        grown@.contains_rect(r@),
        grown@.contains_rect(inward@),
        grown@.contains_rect(outward@),
        around@.contains_rect(q@),
{
    T::lemma_units();
    T::lemma_rounding(r@.min_x());
    T::lemma_rounding(r@.min_y());
    T::lemma_rounding(r@.max_x());
    T::lemma_rounding(r@.max_y());
    law_rect_rounding::<T>(r@);
}

/// The matrix of a rigid transformation is that of its translation
/// multiplied, from before, by that of its rotation: the rotation applies
/// first. Whatever `new`, the three `to_transform` and `pre_mul` return.
pub proof fn law_rigid_to_transform<T: Scalar, U>(
    rotation: TypedRotation3D<T, U, U>,
    translation: TypedVector3D<T, U>,
    rigid: TypedRigidTransform3D<T, U>,
    m: TypedMatrix4D<T, U, U>,
    rm: TypedMatrix4D<T, U, U>,
    tm: TypedMatrix4D<T, U, U>,
    both: TypedMatrix4D<T, U, U>,
)
    requires
        call_ensures(TypedRigidTransform3D::<T, U>::new, (rotation, translation), rigid),
        call_ensures(TypedRigidTransform3D::<T, U>::to_transform, (&rigid,), m),
        call_ensures(TypedRotation3D::<T, U, U>::to_transform, (&rotation,), rm),
        call_ensures(TypedVector3D::<T, U>::to_transform, (&translation,), tm),
        call_ensures(TypedMatrix4D::<T, U, U>::pre_mul::<U>, (&tm, &rm), both),
    ensures
        m == both,
{
    m.lemma_view();
    both.lemma_view();
}

/// Whether the scalars of `T` are the integers themselves: one stands for
/// `1`, a product is the product of the integers, and a quotient is that of
/// the integers, rounded toward zero.
pub open spec fn integral<T: Scalar>() -> bool {
    &&& T::unit() == 1
    &&& forall|a: int, b: int| #[trigger] T::mul_val(a, b) == a * b
    &&& forall|a: int, b: int| #[trigger] T::div_val(a, b) == trunc_div(a, b)
}

/// The integer types of the machine are integral scalars.
pub proof fn law_integers_are_integral()
    ensures
        integral::<i32>(),
        integral::<i64>(),
        integral::<isize>(),
        integral::<u32>(),
        integral::<u64>(),
        integral::<usize>(),
{
}

/// Over integral scalars, a rigid transformation whose rotation has the norm
/// one, followed by its inverse, is the identity, and so is the inverse
/// followed by the transformation: as rigid transformations and as matrices.
pub proof fn law_rigid_inverse<T: Scalar>(g: Rigid3)
    requires
        integral::<T>(),
        g.rotation.i * g.rotation.i + g.rotation.j * g.rotation.j + g.rotation.k * g.rotation.k
            + g.rotation.r * g.rotation.r == 1,
    ensures
        g.post_mul::<T>(g.inverse::<T>()) == Rigid3::identity::<T>(),
        g.inverse::<T>().post_mul::<T>(g) == Rigid3::identity::<T>(),
        g.post_mul::<T>(g.inverse::<T>()).to_transform::<T>() == Mat4::identity::<T>(),
        g.inverse::<T>().post_mul::<T>(g).to_transform::<T>() == Mat4::identity::<T>(),
{
    let q = g.rotation;
    lemma_unit_quaternion(q.i, q.j, q.k, q.r);
    if q.i == 1 {
        assert(g == (Rigid3 { rotation: Quat { i: 1, j: 0, k: 0, r: 0 }, translation: g.translation }));
        lemma_rigid_inverse_i_plus::<T>(g.translation);
    } else if q.i == -1 {
        assert(g == (Rigid3 { rotation: Quat { i: -1, j: 0, k: 0, r: 0 }, translation: g.translation }));
        lemma_rigid_inverse_i_minus::<T>(g.translation);
    } else if q.j == 1 {
        assert(g == (Rigid3 { rotation: Quat { i: 0, j: 1, k: 0, r: 0 }, translation: g.translation }));
        lemma_rigid_inverse_j_plus::<T>(g.translation);
    } else if q.j == -1 {
        assert(g == (Rigid3 { rotation: Quat { i: 0, j: -1, k: 0, r: 0 }, translation: g.translation }));
        lemma_rigid_inverse_j_minus::<T>(g.translation);
    } else if q.k == 1 {
        assert(g == (Rigid3 { rotation: Quat { i: 0, j: 0, k: 1, r: 0 }, translation: g.translation }));
        lemma_rigid_inverse_k_plus::<T>(g.translation);
    } else if q.k == -1 {
        assert(g == (Rigid3 { rotation: Quat { i: 0, j: 0, k: -1, r: 0 }, translation: g.translation }));
        lemma_rigid_inverse_k_minus::<T>(g.translation);
    } else if q.r == 1 {
        assert(g == (Rigid3 { rotation: Quat { i: 0, j: 0, k: 0, r: 1 }, translation: g.translation }));
        lemma_rigid_inverse_r_plus::<T>(g.translation);
    } else if q.r == -1 {
        assert(g == (Rigid3 { rotation: Quat { i: 0, j: 0, k: 0, r: -1 }, translation: g.translation }));
        lemma_rigid_inverse_r_minus::<T>(g.translation);
    }
    law_matrix4d_identity::<T>(Mat4::identity::<T>());
}

/// The law of the inverse for the rotation whose quaternion has `i` equal
/// to `1` and its other parts zero.
proof fn lemma_rigid_inverse_i_plus<T: Scalar>(t: Point3)
    requires
        integral::<T>(),
    ensures
        ({
            let g = Rigid3 { rotation: Quat { i: 1, j: 0, k: 0, r: 0 }, translation: t };
            &&& g.post_mul::<T>(g.inverse::<T>()) == Rigid3::identity::<T>()
            &&& g.inverse::<T>().post_mul::<T>(g) == Rigid3::identity::<T>()
            &&& Rigid3::identity::<T>().to_transform::<T>() == Mat4::identity::<T>()
        }),
{
    let g = Rigid3 { rotation: Quat { i: 1, j: 0, k: 0, r: 0 }, translation: t };
    let v = g.inverse::<T>();
    let before = g.reversed_translation::<T>();
    let after = v.reversed_translation::<T>();
    assert(v.rotation == (Quat { i: -1, j: 0, k: 0, r: 0 }));
    assert(g.post_mul_rotation::<T>(v) == Quat::identity::<T>());
    assert(v.post_mul_rotation::<T>(g) == Quat::identity::<T>());
    assert(Quat::identity::<T>().rotate::<T>(before) == before);
    assert(Quat::identity::<T>().rotate::<T>(after) == after);
    assert(before.add(v.translation) == Point3::zero());
    assert(after.add(g.translation) == Point3::zero());
}

/// The law of the inverse for the rotation whose quaternion has `i` equal
/// to `-1` and its other parts zero.
proof fn lemma_rigid_inverse_i_minus<T: Scalar>(t: Point3)
    requires
        integral::<T>(),
    ensures
        ({
            let g = Rigid3 { rotation: Quat { i: -1, j: 0, k: 0, r: 0 }, translation: t };
            &&& g.post_mul::<T>(g.inverse::<T>()) == Rigid3::identity::<T>()
            &&& g.inverse::<T>().post_mul::<T>(g) == Rigid3::identity::<T>()
            &&& Rigid3::identity::<T>().to_transform::<T>() == Mat4::identity::<T>()
        }),
{
    let g = Rigid3 { rotation: Quat { i: -1, j: 0, k: 0, r: 0 }, translation: t };
    let v = g.inverse::<T>();
    let before = g.reversed_translation::<T>();
    let after = v.reversed_translation::<T>();
    assert(v.rotation == (Quat { i: 1, j: 0, k: 0, r: 0 }));
    assert(g.post_mul_rotation::<T>(v) == Quat::identity::<T>());
    assert(v.post_mul_rotation::<T>(g) == Quat::identity::<T>());
    assert(Quat::identity::<T>().rotate::<T>(before) == before);
    assert(Quat::identity::<T>().rotate::<T>(after) == after);
    assert(before.add(v.translation) == Point3::zero());
    assert(after.add(g.translation) == Point3::zero());
}

/// The law of the inverse for the rotation whose quaternion has `j` equal
/// to `1` and its other parts zero.
proof fn lemma_rigid_inverse_j_plus<T: Scalar>(t: Point3)
    requires
        integral::<T>(),
    ensures
        ({
            let g = Rigid3 { rotation: Quat { i: 0, j: 1, k: 0, r: 0 }, translation: t };
            &&& g.post_mul::<T>(g.inverse::<T>()) == Rigid3::identity::<T>()
            &&& g.inverse::<T>().post_mul::<T>(g) == Rigid3::identity::<T>()
            &&& Rigid3::identity::<T>().to_transform::<T>() == Mat4::identity::<T>()
        }),
{
    let g = Rigid3 { rotation: Quat { i: 0, j: 1, k: 0, r: 0 }, translation: t };
    let v = g.inverse::<T>();
    let before = g.reversed_translation::<T>();
    let after = v.reversed_translation::<T>();
    assert(v.rotation == (Quat { i: 0, j: -1, k: 0, r: 0 }));
    assert(g.post_mul_rotation::<T>(v) == Quat::identity::<T>());
    assert(v.post_mul_rotation::<T>(g) == Quat::identity::<T>());
    assert(Quat::identity::<T>().rotate::<T>(before) == before);
    assert(Quat::identity::<T>().rotate::<T>(after) == after);
    assert(before.add(v.translation) == Point3::zero());
    assert(after.add(g.translation) == Point3::zero());
}

/// The law of the inverse for the rotation whose quaternion has `j` equal
/// to `-1` and its other parts zero.
proof fn lemma_rigid_inverse_j_minus<T: Scalar>(t: Point3)
    requires
        integral::<T>(),
    ensures
        ({
            let g = Rigid3 { rotation: Quat { i: 0, j: -1, k: 0, r: 0 }, translation: t };
            &&& g.post_mul::<T>(g.inverse::<T>()) == Rigid3::identity::<T>()
            &&& g.inverse::<T>().post_mul::<T>(g) == Rigid3::identity::<T>()
            &&& Rigid3::identity::<T>().to_transform::<T>() == Mat4::identity::<T>()
        }),
{
    let g = Rigid3 { rotation: Quat { i: 0, j: -1, k: 0, r: 0 }, translation: t };
    let v = g.inverse::<T>();
    let before = g.reversed_translation::<T>();
    let after = v.reversed_translation::<T>();
    assert(v.rotation == (Quat { i: 0, j: 1, k: 0, r: 0 }));
    assert(g.post_mul_rotation::<T>(v) == Quat::identity::<T>());
    assert(v.post_mul_rotation::<T>(g) == Quat::identity::<T>());
    assert(Quat::identity::<T>().rotate::<T>(before) == before);
    assert(Quat::identity::<T>().rotate::<T>(after) == after);
    assert(before.add(v.translation) == Point3::zero());
    assert(after.add(g.translation) == Point3::zero());
}

/// The law of the inverse for the rotation whose quaternion has `k` equal
/// to `1` and its other parts zero.
proof fn lemma_rigid_inverse_k_plus<T: Scalar>(t: Point3)
    requires
        integral::<T>(),
    ensures
        ({
            let g = Rigid3 { rotation: Quat { i: 0, j: 0, k: 1, r: 0 }, translation: t };
            &&& g.post_mul::<T>(g.inverse::<T>()) == Rigid3::identity::<T>()
            &&& g.inverse::<T>().post_mul::<T>(g) == Rigid3::identity::<T>()
            &&& Rigid3::identity::<T>().to_transform::<T>() == Mat4::identity::<T>()
        }),
{
    let g = Rigid3 { rotation: Quat { i: 0, j: 0, k: 1, r: 0 }, translation: t };
    let v = g.inverse::<T>();
    let before = g.reversed_translation::<T>();
    let after = v.reversed_translation::<T>();
    assert(v.rotation == (Quat { i: 0, j: 0, k: -1, r: 0 }));
    assert(g.post_mul_rotation::<T>(v) == Quat::identity::<T>());
    assert(v.post_mul_rotation::<T>(g) == Quat::identity::<T>());
    assert(Quat::identity::<T>().rotate::<T>(before) == before);
    assert(Quat::identity::<T>().rotate::<T>(after) == after);
    assert(before.add(v.translation) == Point3::zero());
    assert(after.add(g.translation) == Point3::zero());
}

/// The law of the inverse for the rotation whose quaternion has `k` equal
/// to `-1` and its other parts zero.
proof fn lemma_rigid_inverse_k_minus<T: Scalar>(t: Point3)
    requires
        integral::<T>(),
    ensures
        ({
            let g = Rigid3 { rotation: Quat { i: 0, j: 0, k: -1, r: 0 }, translation: t };
            &&& g.post_mul::<T>(g.inverse::<T>()) == Rigid3::identity::<T>()
            &&& g.inverse::<T>().post_mul::<T>(g) == Rigid3::identity::<T>()
            &&& Rigid3::identity::<T>().to_transform::<T>() == Mat4::identity::<T>()
        }),
{
    let g = Rigid3 { rotation: Quat { i: 0, j: 0, k: -1, r: 0 }, translation: t };
    let v = g.inverse::<T>();
    let before = g.reversed_translation::<T>();
    let after = v.reversed_translation::<T>();
    assert(v.rotation == (Quat { i: 0, j: 0, k: 1, r: 0 }));
    assert(g.post_mul_rotation::<T>(v) == Quat::identity::<T>());
    assert(v.post_mul_rotation::<T>(g) == Quat::identity::<T>());
    assert(Quat::identity::<T>().rotate::<T>(before) == before);
    assert(Quat::identity::<T>().rotate::<T>(after) == after);
    assert(before.add(v.translation) == Point3::zero());
    assert(after.add(g.translation) == Point3::zero());
}

/// The law of the inverse for the rotation whose quaternion has `r` equal
/// to `1` and its other parts zero.
proof fn lemma_rigid_inverse_r_plus<T: Scalar>(t: Point3)
    requires
        integral::<T>(),
    ensures
        ({
            let g = Rigid3 { rotation: Quat { i: 0, j: 0, k: 0, r: 1 }, translation: t };
            &&& g.post_mul::<T>(g.inverse::<T>()) == Rigid3::identity::<T>()
            &&& g.inverse::<T>().post_mul::<T>(g) == Rigid3::identity::<T>()
            &&& Rigid3::identity::<T>().to_transform::<T>() == Mat4::identity::<T>()
        }),
{
    let g = Rigid3 { rotation: Quat { i: 0, j: 0, k: 0, r: 1 }, translation: t };
    let v = g.inverse::<T>();
    let before = g.reversed_translation::<T>();
    let after = v.reversed_translation::<T>();
    assert(v.rotation == (Quat { i: 0, j: 0, k: 0, r: 1 }));
    assert(g.post_mul_rotation::<T>(v) == Quat::identity::<T>());
    assert(v.post_mul_rotation::<T>(g) == Quat::identity::<T>());
    assert(Quat::identity::<T>().rotate::<T>(before) == before);
    assert(Quat::identity::<T>().rotate::<T>(after) == after);
    assert(before.add(v.translation) == Point3::zero());
    assert(after.add(g.translation) == Point3::zero());
}

/// The law of the inverse for the rotation whose quaternion has `r` equal
/// to `-1` and its other parts zero.
proof fn lemma_rigid_inverse_r_minus<T: Scalar>(t: Point3)
    requires
        integral::<T>(),
    ensures
        ({
            let g = Rigid3 { rotation: Quat { i: 0, j: 0, k: 0, r: -1 }, translation: t };
            &&& g.post_mul::<T>(g.inverse::<T>()) == Rigid3::identity::<T>()
            &&& g.inverse::<T>().post_mul::<T>(g) == Rigid3::identity::<T>()
            &&& Rigid3::identity::<T>().to_transform::<T>() == Mat4::identity::<T>()
        }),
{
    let g = Rigid3 { rotation: Quat { i: 0, j: 0, k: 0, r: -1 }, translation: t };
    let v = g.inverse::<T>();
    let before = g.reversed_translation::<T>();
    let after = v.reversed_translation::<T>();
    assert(v.rotation == (Quat { i: 0, j: 0, k: 0, r: -1 }));
    assert(g.post_mul_rotation::<T>(v) == Quat::identity::<T>());
    assert(v.post_mul_rotation::<T>(g) == Quat::identity::<T>());
    assert(Quat::identity::<T>().rotate::<T>(before) == before);
    assert(Quat::identity::<T>().rotate::<T>(after) == after);
    assert(before.add(v.translation) == Point3::zero());
    assert(after.add(g.translation) == Point3::zero());
}

/// Four integers whose squares add up to one: one of them is `1` or `-1`,
/// and the others are zero.
proof fn lemma_unit_quaternion(i: int, j: int, k: int, r: int)
    requires
        i * i + j * j + k * k + r * r == 1,
    ensures
        (i == 1 || i == -1) && j == 0 && k == 0 && r == 0 || i == 0 && (j == 1 || j == -1) && k
            == 0 && r == 0 || i == 0 && j == 0 && (k == 1 || k == -1) && r == 0 || i == 0 && j
            == 0 && k == 0 && (r == 1 || r == -1),
{
    lemma_square(i);
    lemma_square(j);
    lemma_square(k);
    lemma_square(r);
}

/// The square of an integer is zero for zero, one for `1` and `-1`, and at
/// least four otherwise.
proof fn lemma_square(x: int)
    ensures
        x == 0 ==> x * x == 0,
        x == 1 || x == -1 ==> x * x == 1,
        x >= 2 || x <= -2 ==> x * x >= 4,
{
    assert(x == 0 ==> x * x == 0) by (nonlinear_arith);
    assert(x == 1 || x == -1 ==> x * x == 1) by (nonlinear_arith);
    assert(x >= 2 || x <= -2 ==> x * x >= 4) by (nonlinear_arith);
}

/// Over integral scalars, a 2d transformation whose determinant is `1` or
/// `-1` composed with its inverse, in either order, is the identity.
pub proof fn law_matrix2d_inverse<T: Scalar>(m: Mat2)
    requires
        integral::<T>(),
        m.determinant::<T>() == 1 || m.determinant::<T>() == -1,
    ensures
        m.post_mul::<T>(m.inverse::<T>()) == Mat2::identity::<T>(),
        m.pre_mul::<T>(m.inverse::<T>()) == Mat2::identity::<T>(),
{
    let d = m.determinant::<T>();
    assert(trunc_div(1, d) == d) by {
        if d == 1 {
            assert(1int / 1 == 1);
        } else {
            assert(1int / (-1int) == -1) by (nonlinear_arith);
        }
    }
    assert(d * d == 1) by (nonlinear_arith)
        requires
            d == 1 || d == -1,
    ;
    lemma_mat2_adjugate(m.m11, m.m12, m.m21, m.m22, m.m31, m.m32, d);
    assert(d * d * m.m31 == m.m31 && d * d * m.m32 == m.m32) by (nonlinear_arith)
        requires
            d * d == 1,
    ;
}

/// The terms of the two products of a 2d transformation with `d` times its
/// adjugate: `d` times the determinant on the diagonal, and zero elsewhere.
proof fn lemma_mat2_adjugate(m11: int, m12: int, m21: int, m22: int, m31: int, m32: int, d: int)
    ensures
        m11 * (d * m22) + m12 * (d * (0 - m21)) == d * (m11 * m22 - m12 * m21),
        m11 * (d * (0 - m12)) + m12 * (d * m11) == 0,
        m21 * (d * m22) + m22 * (d * (0 - m21)) == 0,
        m21 * (d * (0 - m12)) + m22 * (d * m11) == d * (m11 * m22 - m12 * m21),
        m31 * (d * m22) + m32 * (d * (0 - m21)) + d * (m21 * m32 - m22 * m31) == 0,
        m31 * (d * (0 - m12)) + m32 * (d * m11) + d * (m31 * m12 - m11 * m32) == 0,
        (d * m22) * m11 + (d * (0 - m12)) * m21 == d * (m11 * m22 - m12 * m21),
        (d * m22) * m12 + (d * (0 - m12)) * m22 == 0,
        (d * (0 - m21)) * m11 + (d * m11) * m21 == 0,
        (d * (0 - m21)) * m12 + (d * m11) * m22 == d * (m11 * m22 - m12 * m21),
        (d * (m21 * m32 - m22 * m31)) * m11 + (d * (m31 * m12 - m11 * m32)) * m21 + m31 == m31 - d
            * (m11 * m22 - m12 * m21) * m31,
        (d * (m21 * m32 - m22 * m31)) * m12 + (d * (m31 * m12 - m11 * m32)) * m22 + m32 == m32 - d
            * (m11 * m22 - m12 * m21) * m32,
{
    assert(m11 * (d * m22) + m12 * (d * (0 - m21)) == d * (m11 * m22 - m12 * m21))
        by (nonlinear_arith);
    assert(m11 * (d * (0 - m12)) + m12 * (d * m11) == 0) by (nonlinear_arith);
    assert(m21 * (d * m22) + m22 * (d * (0 - m21)) == 0) by (nonlinear_arith);
    assert(m21 * (d * (0 - m12)) + m22 * (d * m11) == d * (m11 * m22 - m12 * m21))
        by (nonlinear_arith);
    assert(m31 * (d * m22) + m32 * (d * (0 - m21)) + d * (m21 * m32 - m22 * m31) == 0)
        by (nonlinear_arith);
    assert(m31 * (d * (0 - m12)) + m32 * (d * m11) + d * (m31 * m12 - m11 * m32) == 0)
        by (nonlinear_arith);
    assert((d * m22) * m11 + (d * (0 - m12)) * m21 == d * (m11 * m22 - m12 * m21))
        by (nonlinear_arith);
    assert((d * m22) * m12 + (d * (0 - m12)) * m22 == 0) by (nonlinear_arith);
    assert((d * (0 - m21)) * m11 + (d * m11) * m21 == 0) by (nonlinear_arith);
    assert((d * (0 - m21)) * m12 + (d * m11) * m22 == d * (m11 * m22 - m12 * m21))
        by (nonlinear_arith);
    let det = m11 * m22 - m12 * m21;
    let p = m21 * m32 - m22 * m31;
    let q = m31 * m12 - m11 * m32;
    assert(p * m11 + q * m21 == -(det * m31)) by {
        assert(p * m11 == (m21 * m32) * m11 - (m22 * m31) * m11) by (nonlinear_arith)
            requires
                p == m21 * m32 - m22 * m31,
        ;
        assert(q * m21 == (m31 * m12) * m21 - (m11 * m32) * m21) by (nonlinear_arith)
            requires
                q == m31 * m12 - m11 * m32,
        ;
        assert(det * m31 == (m11 * m22) * m31 - (m12 * m21) * m31) by (nonlinear_arith)
            requires
                det == m11 * m22 - m12 * m21,
        ;
        assert((m21 * m32) * m11 == (m11 * m32) * m21) by (nonlinear_arith);
        assert((m22 * m31) * m11 == (m11 * m22) * m31) by (nonlinear_arith);
        assert((m31 * m12) * m21 == (m12 * m21) * m31) by (nonlinear_arith);
    }
    assert(p * m12 + q * m22 == -(det * m32)) by {
        assert(p * m12 == (m21 * m32) * m12 - (m22 * m31) * m12) by (nonlinear_arith)
            requires
                p == m21 * m32 - m22 * m31,
        ;
        assert(q * m22 == (m31 * m12) * m22 - (m11 * m32) * m22) by (nonlinear_arith)
            requires
                q == m31 * m12 - m11 * m32,
        ;
        assert(det * m32 == (m11 * m22) * m32 - (m12 * m21) * m32) by (nonlinear_arith)
            requires
                det == m11 * m22 - m12 * m21,
        ;
        assert((m21 * m32) * m12 == (m12 * m21) * m32) by (nonlinear_arith);
        assert((m22 * m31) * m12 == (m31 * m12) * m22) by (nonlinear_arith);
        assert((m11 * m32) * m22 == (m11 * m22) * m32) by (nonlinear_arith);
    }
    assert((d * p) * m11 + (d * q) * m21 == d * (p * m11 + q * m21)) by (nonlinear_arith);
    assert((d * p) * m12 + (d * q) * m22 == d * (p * m12 + q * m22)) by (nonlinear_arith);
    assert(d * (-(det * m31)) == -(d * det * m31)) by (nonlinear_arith);
    assert(d * (-(det * m32)) == -(d * det * m32)) by (nonlinear_arith);
}

} // verus!
