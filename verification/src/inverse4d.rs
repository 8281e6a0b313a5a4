//! The inverse of a 3d transformation composed with the transformation is
//! the identity: the proof, by the expansion of every term into products of
//! four terms of the matrix, each brought into one order.
use vstd::prelude::*;
use crate::laws::integral;
use crate::model::Mat4;
use crate::num::{Scalar, trunc_div};

verus! {

/// The product of an integer with a product of three is the product of
/// the four, in whatever order they are taken.
proof fn lemma_four_factors(x: int, a: int, b: int, c: int)
    ensures
        x * (a * b * c) == x * a * b * c,
        x * (a * b * c) == x * a * c * b,
        x * (a * b * c) == x * b * a * c,
        x * (a * b * c) == x * b * c * a,
        x * (a * b * c) == x * c * a * b,
        x * (a * b * c) == x * c * b * a,
        x * (a * b * c) == a * x * b * c,
        x * (a * b * c) == a * x * c * b,
        x * (a * b * c) == a * b * x * c,
        x * (a * b * c) == a * b * c * x,
        x * (a * b * c) == a * c * x * b,
        x * (a * b * c) == a * c * b * x,
        x * (a * b * c) == b * x * a * c,
        x * (a * b * c) == b * x * c * a,
        x * (a * b * c) == b * a * x * c,
        x * (a * b * c) == b * a * c * x,
        x * (a * b * c) == b * c * x * a,
        x * (a * b * c) == b * c * a * x,
        x * (a * b * c) == c * x * a * b,
        x * (a * b * c) == c * x * b * a,
        x * (a * b * c) == c * a * x * b,
        x * (a * b * c) == c * a * b * x,
        x * (a * b * c) == c * b * x * a,
        x * (a * b * c) == c * b * a * x,
        (a * b * c) * x == x * (a * b * c),
{
    assert(x * (a * b * c) == x * a * b * c) by (nonlinear_arith);
    assert(x * (a * b * c) == x * a * c * b) by (nonlinear_arith);
    assert(x * (a * b * c) == x * b * a * c) by (nonlinear_arith);
    assert(x * (a * b * c) == x * b * c * a) by (nonlinear_arith);
    assert(x * (a * b * c) == x * c * a * b) by (nonlinear_arith);
    assert(x * (a * b * c) == x * c * b * a) by (nonlinear_arith);
    assert(x * (a * b * c) == a * x * b * c) by (nonlinear_arith);
    assert(x * (a * b * c) == a * x * c * b) by (nonlinear_arith);
    assert(x * (a * b * c) == a * b * x * c) by (nonlinear_arith);
    assert(x * (a * b * c) == a * b * c * x) by (nonlinear_arith);
    assert(x * (a * b * c) == a * c * x * b) by (nonlinear_arith);
    assert(x * (a * b * c) == a * c * b * x) by (nonlinear_arith);
    assert(x * (a * b * c) == b * x * a * c) by (nonlinear_arith);
    assert(x * (a * b * c) == b * x * c * a) by (nonlinear_arith);
    assert(x * (a * b * c) == b * a * x * c) by (nonlinear_arith);
    assert(x * (a * b * c) == b * a * c * x) by (nonlinear_arith);
    assert(x * (a * b * c) == b * c * x * a) by (nonlinear_arith);
    assert(x * (a * b * c) == b * c * a * x) by (nonlinear_arith);
    assert(x * (a * b * c) == c * x * a * b) by (nonlinear_arith);
    assert(x * (a * b * c) == c * x * b * a) by (nonlinear_arith);
    assert(x * (a * b * c) == c * a * x * b) by (nonlinear_arith);
    assert(x * (a * b * c) == c * a * b * x) by (nonlinear_arith);
    assert(x * (a * b * c) == c * b * x * a) by (nonlinear_arith);
    assert(x * (a * b * c) == c * b * a * x) by (nonlinear_arith);
    assert((a * b * c) * x == x * (a * b * c)) by (nonlinear_arith);
}

/// An integer times a sum of six terms, each with the sign `1` or `-1`, is
/// the sum of the integer times each term, on either side.
proof fn lemma_times_six(
    x: int,
    s1: int,
    t1: int,
    s2: int,
    t2: int,
    s3: int,
    t3: int,
    s4: int,
    t4: int,
    s5: int,
    t5: int,
    s6: int,
    t6: int,
)
    ensures
        x * (s1 * t1 + s2 * t2 + s3 * t3 + s4 * t4 + s5 * t5 + s6 * t6) == s1 * (x * t1) + s2 * (x
            * t2) + s3 * (x * t3) + s4 * (x * t4) + s5 * (x * t5) + s6 * (x * t6),
        (s1 * t1 + s2 * t2 + s3 * t3 + s4 * t4 + s5 * t5 + s6 * t6) * x == s1 * (x * t1) + s2 * (x
            * t2) + s3 * (x * t3) + s4 * (x * t4) + s5 * (x * t5) + s6 * (x * t6),
{
    let u1 = s1 * t1;
    let u2 = s2 * t2;
    let u3 = s3 * t3;
    let u4 = s4 * t4;
    let u5 = s5 * t5;
    let u6 = s6 * t6;
    assert(x * (u1 + u2 + u3 + u4 + u5 + u6) == x * u1 + x * u2 + x * u3 + x * u4 + x * u5 + x
        * u6) by (nonlinear_arith);
    assert((u1 + u2 + u3 + u4 + u5 + u6) * x == x * (u1 + u2 + u3 + u4 + u5 + u6))
        by (nonlinear_arith);
    assert(x * u1 == s1 * (x * t1)) by (nonlinear_arith)
        requires
            u1 == s1 * t1,
    ;
    assert(x * u2 == s2 * (x * t2)) by (nonlinear_arith)
        requires
            u2 == s2 * t2,
    ;
    assert(x * u3 == s3 * (x * t3)) by (nonlinear_arith)
        requires
            u3 == s3 * t3,
    ;
    assert(x * u4 == s4 * (x * t4)) by (nonlinear_arith)
        requires
            u4 == s4 * t4,
    ;
    assert(x * u5 == s5 * (x * t5)) by (nonlinear_arith)
        requires
            u5 == s5 * t5,
    ;
    assert(x * u6 == s6 * (x * t6)) by (nonlinear_arith)
        requires
            u6 == s6 * t6,
    ;
}

/// The determinant with the four factors of every product in one order.
proof fn lemma_determinant_sorted(m: Mat4)
    ensures
        m.determinant::<i64>() == m.m14 * m.m23 * m.m32 * m.m41
            - m.m13 * m.m24 * m.m32 * m.m41 - m.m14 * m.m22 * m.m33 * m.m41
            + m.m12 * m.m24 * m.m33 * m.m41 + m.m13 * m.m22 * m.m34 * m.m41
            - m.m12 * m.m23 * m.m34 * m.m41 - m.m14 * m.m23 * m.m31 * m.m42
            + m.m13 * m.m24 * m.m31 * m.m42 + m.m14 * m.m21 * m.m33 * m.m42
            - m.m11 * m.m24 * m.m33 * m.m42 - m.m13 * m.m21 * m.m34 * m.m42
            + m.m11 * m.m23 * m.m34 * m.m42 + m.m14 * m.m22 * m.m31 * m.m43
            - m.m12 * m.m24 * m.m31 * m.m43 - m.m14 * m.m21 * m.m32 * m.m43
            + m.m11 * m.m24 * m.m32 * m.m43 + m.m12 * m.m21 * m.m34 * m.m43
            - m.m11 * m.m22 * m.m34 * m.m43 - m.m13 * m.m22 * m.m31 * m.m44
            + m.m12 * m.m23 * m.m31 * m.m44 + m.m13 * m.m21 * m.m32 * m.m44
            - m.m11 * m.m23 * m.m32 * m.m44 - m.m12 * m.m21 * m.m33 * m.m44
            + m.m11 * m.m22 * m.m33 * m.m44,
{
}

/// Row 1 of a matrix times column 1 of its adjugate is the determinant.
proof fn lemma_matrix_adjugate_11(m: Mat4)
    ensures
        ({
            let a = m.adjugate::<i64>();
            m.m11 * a.m11 + m.m12 * a.m21 + m.m13 * a.m31 + m.m14 * a.m41 == m.determinant::<i64>()
        }),
{
    lemma_times_six(
        m.m11, 1, m.m23 * m.m34 * m.m42, -1, m.m24 * m.m33 * m.m42, 1, m.m24 * m.m32 * m.m43, -1,
        m.m22 * m.m34 * m.m43, -1, m.m23 * m.m32 * m.m44, 1, m.m22 * m.m33 * m.m44,
    );
    lemma_four_factors(m.m11, m.m23, m.m34, m.m42);
    lemma_four_factors(m.m11, m.m24, m.m33, m.m42);
    lemma_four_factors(m.m11, m.m24, m.m32, m.m43);
    lemma_four_factors(m.m11, m.m22, m.m34, m.m43);
    lemma_four_factors(m.m11, m.m23, m.m32, m.m44);
    lemma_four_factors(m.m11, m.m22, m.m33, m.m44);
    lemma_times_six(
        m.m12, 1, m.m24 * m.m33 * m.m41, -1, m.m23 * m.m34 * m.m41, -1, m.m24 * m.m31 * m.m43, 1,
        m.m21 * m.m34 * m.m43, 1, m.m23 * m.m31 * m.m44, -1, m.m21 * m.m33 * m.m44,
    );
    lemma_four_factors(m.m12, m.m24, m.m33, m.m41);
    lemma_four_factors(m.m12, m.m23, m.m34, m.m41);
    lemma_four_factors(m.m12, m.m24, m.m31, m.m43);
    lemma_four_factors(m.m12, m.m21, m.m34, m.m43);
    lemma_four_factors(m.m12, m.m23, m.m31, m.m44);
    lemma_four_factors(m.m12, m.m21, m.m33, m.m44);
    lemma_times_six(
        m.m13, 1, m.m22 * m.m34 * m.m41, -1, m.m24 * m.m32 * m.m41, 1, m.m24 * m.m31 * m.m42, -1,
        m.m21 * m.m34 * m.m42, -1, m.m22 * m.m31 * m.m44, 1, m.m21 * m.m32 * m.m44,
    );
    lemma_four_factors(m.m13, m.m22, m.m34, m.m41);
    lemma_four_factors(m.m13, m.m24, m.m32, m.m41);
    lemma_four_factors(m.m13, m.m24, m.m31, m.m42);
    lemma_four_factors(m.m13, m.m21, m.m34, m.m42);
    lemma_four_factors(m.m13, m.m22, m.m31, m.m44);
    lemma_four_factors(m.m13, m.m21, m.m32, m.m44);
    lemma_times_six(
        m.m14, 1, m.m23 * m.m32 * m.m41, -1, m.m22 * m.m33 * m.m41, -1, m.m23 * m.m31 * m.m42, 1,
        m.m21 * m.m33 * m.m42, 1, m.m22 * m.m31 * m.m43, -1, m.m21 * m.m32 * m.m43,
    );
    lemma_four_factors(m.m14, m.m23, m.m32, m.m41);
    lemma_four_factors(m.m14, m.m22, m.m33, m.m41);
    lemma_four_factors(m.m14, m.m23, m.m31, m.m42);
    lemma_four_factors(m.m14, m.m21, m.m33, m.m42);
    lemma_four_factors(m.m14, m.m22, m.m31, m.m43);
    lemma_four_factors(m.m14, m.m21, m.m32, m.m43);
    lemma_determinant_sorted(m);
}

/// Row 1 of a matrix times column 2 of its adjugate is zero.
proof fn lemma_matrix_adjugate_12(m: Mat4)
    ensures
        ({
            let a = m.adjugate::<i64>();
            m.m11 * a.m12 + m.m12 * a.m22 + m.m13 * a.m32 + m.m14 * a.m42 == 0
        }),
{
    lemma_times_six(
        m.m11, 1, m.m14 * m.m33 * m.m42, -1, m.m13 * m.m34 * m.m42, -1, m.m14 * m.m32 * m.m43, 1,
        m.m12 * m.m34 * m.m43, 1, m.m13 * m.m32 * m.m44, -1, m.m12 * m.m33 * m.m44,
    );
    lemma_four_factors(m.m11, m.m14, m.m33, m.m42);
    lemma_four_factors(m.m11, m.m13, m.m34, m.m42);
    lemma_four_factors(m.m11, m.m14, m.m32, m.m43);
    lemma_four_factors(m.m11, m.m12, m.m34, m.m43);
    lemma_four_factors(m.m11, m.m13, m.m32, m.m44);
    lemma_four_factors(m.m11, m.m12, m.m33, m.m44);
    lemma_times_six(
        m.m12, 1, m.m13 * m.m34 * m.m41, -1, m.m14 * m.m33 * m.m41, 1, m.m14 * m.m31 * m.m43, -1,
        m.m11 * m.m34 * m.m43, -1, m.m13 * m.m31 * m.m44, 1, m.m11 * m.m33 * m.m44,
    );
    lemma_four_factors(m.m12, m.m13, m.m34, m.m41);
    lemma_four_factors(m.m12, m.m14, m.m33, m.m41);
    lemma_four_factors(m.m12, m.m14, m.m31, m.m43);
    lemma_four_factors(m.m12, m.m11, m.m34, m.m43);
    lemma_four_factors(m.m12, m.m13, m.m31, m.m44);
    lemma_four_factors(m.m12, m.m11, m.m33, m.m44);
    lemma_times_six(
        m.m13, 1, m.m14 * m.m32 * m.m41, -1, m.m12 * m.m34 * m.m41, -1, m.m14 * m.m31 * m.m42, 1,
        m.m11 * m.m34 * m.m42, 1, m.m12 * m.m31 * m.m44, -1, m.m11 * m.m32 * m.m44,
    );
    lemma_four_factors(m.m13, m.m14, m.m32, m.m41);
    lemma_four_factors(m.m13, m.m12, m.m34, m.m41);
    lemma_four_factors(m.m13, m.m14, m.m31, m.m42);
    lemma_four_factors(m.m13, m.m11, m.m34, m.m42);
    lemma_four_factors(m.m13, m.m12, m.m31, m.m44);
    lemma_four_factors(m.m13, m.m11, m.m32, m.m44);
    lemma_times_six(
        m.m14, 1, m.m12 * m.m33 * m.m41, -1, m.m13 * m.m32 * m.m41, 1, m.m13 * m.m31 * m.m42, -1,
        m.m11 * m.m33 * m.m42, -1, m.m12 * m.m31 * m.m43, 1, m.m11 * m.m32 * m.m43,
    );
    lemma_four_factors(m.m14, m.m12, m.m33, m.m41);
    lemma_four_factors(m.m14, m.m13, m.m32, m.m41);
    lemma_four_factors(m.m14, m.m13, m.m31, m.m42);
    lemma_four_factors(m.m14, m.m11, m.m33, m.m42);
    lemma_four_factors(m.m14, m.m12, m.m31, m.m43);
    lemma_four_factors(m.m14, m.m11, m.m32, m.m43);
}

/// Row 1 of a matrix times column 3 of its adjugate is zero.
proof fn lemma_matrix_adjugate_13(m: Mat4)
    ensures
        ({
            let a = m.adjugate::<i64>();
            m.m11 * a.m13 + m.m12 * a.m23 + m.m13 * a.m33 + m.m14 * a.m43 == 0
        }),
{
    lemma_times_six(
        m.m11, 1, m.m13 * m.m24 * m.m42, -1, m.m14 * m.m23 * m.m42, 1, m.m14 * m.m22 * m.m43, -1,
        m.m12 * m.m24 * m.m43, -1, m.m13 * m.m22 * m.m44, 1, m.m12 * m.m23 * m.m44,
    );
    lemma_four_factors(m.m11, m.m13, m.m24, m.m42);
    lemma_four_factors(m.m11, m.m14, m.m23, m.m42);
    lemma_four_factors(m.m11, m.m14, m.m22, m.m43);
    lemma_four_factors(m.m11, m.m12, m.m24, m.m43);
    lemma_four_factors(m.m11, m.m13, m.m22, m.m44);
    lemma_four_factors(m.m11, m.m12, m.m23, m.m44);
    lemma_times_six(
        m.m12, 1, m.m14 * m.m23 * m.m41, -1, m.m13 * m.m24 * m.m41, -1, m.m14 * m.m21 * m.m43, 1,
        m.m11 * m.m24 * m.m43, 1, m.m13 * m.m21 * m.m44, -1, m.m11 * m.m23 * m.m44,
    );
    lemma_four_factors(m.m12, m.m14, m.m23, m.m41);
    lemma_four_factors(m.m12, m.m13, m.m24, m.m41);
    lemma_four_factors(m.m12, m.m14, m.m21, m.m43);
    lemma_four_factors(m.m12, m.m11, m.m24, m.m43);
    lemma_four_factors(m.m12, m.m13, m.m21, m.m44);
    lemma_four_factors(m.m12, m.m11, m.m23, m.m44);
    lemma_times_six(
        m.m13, 1, m.m12 * m.m24 * m.m41, -1, m.m14 * m.m22 * m.m41, 1, m.m14 * m.m21 * m.m42, -1,
        m.m11 * m.m24 * m.m42, -1, m.m12 * m.m21 * m.m44, 1, m.m11 * m.m22 * m.m44,
    );
    lemma_four_factors(m.m13, m.m12, m.m24, m.m41);
    lemma_four_factors(m.m13, m.m14, m.m22, m.m41);
    lemma_four_factors(m.m13, m.m14, m.m21, m.m42);
    lemma_four_factors(m.m13, m.m11, m.m24, m.m42);
    lemma_four_factors(m.m13, m.m12, m.m21, m.m44);
    lemma_four_factors(m.m13, m.m11, m.m22, m.m44);
    lemma_times_six(
        m.m14, 1, m.m13 * m.m22 * m.m41, -1, m.m12 * m.m23 * m.m41, -1, m.m13 * m.m21 * m.m42, 1,
        m.m11 * m.m23 * m.m42, 1, m.m12 * m.m21 * m.m43, -1, m.m11 * m.m22 * m.m43,
    );
    lemma_four_factors(m.m14, m.m13, m.m22, m.m41);
    lemma_four_factors(m.m14, m.m12, m.m23, m.m41);
    lemma_four_factors(m.m14, m.m13, m.m21, m.m42);
    lemma_four_factors(m.m14, m.m11, m.m23, m.m42);
    lemma_four_factors(m.m14, m.m12, m.m21, m.m43);
    lemma_four_factors(m.m14, m.m11, m.m22, m.m43);
}

/// Row 1 of a matrix times column 4 of its adjugate is zero.
proof fn lemma_matrix_adjugate_14(m: Mat4)
    ensures
        ({
            let a = m.adjugate::<i64>();
            m.m11 * a.m14 + m.m12 * a.m24 + m.m13 * a.m34 + m.m14 * a.m44 == 0
        }),
{
    lemma_times_six(
        m.m11, 1, m.m14 * m.m23 * m.m32, -1, m.m13 * m.m24 * m.m32, -1, m.m14 * m.m22 * m.m33, 1,
        m.m12 * m.m24 * m.m33, 1, m.m13 * m.m22 * m.m34, -1, m.m12 * m.m23 * m.m34,
    );
    lemma_four_factors(m.m11, m.m14, m.m23, m.m32);
    lemma_four_factors(m.m11, m.m13, m.m24, m.m32);
    lemma_four_factors(m.m11, m.m14, m.m22, m.m33);
    lemma_four_factors(m.m11, m.m12, m.m24, m.m33);
    lemma_four_factors(m.m11, m.m13, m.m22, m.m34);
    lemma_four_factors(m.m11, m.m12, m.m23, m.m34);
    lemma_times_six(
        m.m12, 1, m.m13 * m.m24 * m.m31, -1, m.m14 * m.m23 * m.m31, 1, m.m14 * m.m21 * m.m33, -1,
        m.m11 * m.m24 * m.m33, -1, m.m13 * m.m21 * m.m34, 1, m.m11 * m.m23 * m.m34,
    );
    lemma_four_factors(m.m12, m.m13, m.m24, m.m31);
    lemma_four_factors(m.m12, m.m14, m.m23, m.m31);
    lemma_four_factors(m.m12, m.m14, m.m21, m.m33);
    lemma_four_factors(m.m12, m.m11, m.m24, m.m33);
    lemma_four_factors(m.m12, m.m13, m.m21, m.m34);
    lemma_four_factors(m.m12, m.m11, m.m23, m.m34);
    lemma_times_six(
        m.m13, 1, m.m14 * m.m22 * m.m31, -1, m.m12 * m.m24 * m.m31, -1, m.m14 * m.m21 * m.m32, 1,
        m.m11 * m.m24 * m.m32, 1, m.m12 * m.m21 * m.m34, -1, m.m11 * m.m22 * m.m34,
    );
    lemma_four_factors(m.m13, m.m14, m.m22, m.m31);
    lemma_four_factors(m.m13, m.m12, m.m24, m.m31);
    lemma_four_factors(m.m13, m.m14, m.m21, m.m32);
    lemma_four_factors(m.m13, m.m11, m.m24, m.m32);
    lemma_four_factors(m.m13, m.m12, m.m21, m.m34);
    lemma_four_factors(m.m13, m.m11, m.m22, m.m34);
    lemma_times_six(
        m.m14, 1, m.m12 * m.m23 * m.m31, -1, m.m13 * m.m22 * m.m31, 1, m.m13 * m.m21 * m.m32, -1,
        m.m11 * m.m23 * m.m32, -1, m.m12 * m.m21 * m.m33, 1, m.m11 * m.m22 * m.m33,
    );
    lemma_four_factors(m.m14, m.m12, m.m23, m.m31);
    lemma_four_factors(m.m14, m.m13, m.m22, m.m31);
    lemma_four_factors(m.m14, m.m13, m.m21, m.m32);
    lemma_four_factors(m.m14, m.m11, m.m23, m.m32);
    lemma_four_factors(m.m14, m.m12, m.m21, m.m33);
    lemma_four_factors(m.m14, m.m11, m.m22, m.m33);
}

/// Row 2 of a matrix times column 1 of its adjugate is zero.
proof fn lemma_matrix_adjugate_21(m: Mat4)
    ensures
        ({
            let a = m.adjugate::<i64>();
            m.m21 * a.m11 + m.m22 * a.m21 + m.m23 * a.m31 + m.m24 * a.m41 == 0
        }),
{
    lemma_times_six(
        m.m21, 1, m.m23 * m.m34 * m.m42, -1, m.m24 * m.m33 * m.m42, 1, m.m24 * m.m32 * m.m43, -1,
        m.m22 * m.m34 * m.m43, -1, m.m23 * m.m32 * m.m44, 1, m.m22 * m.m33 * m.m44,
    );
    lemma_four_factors(m.m21, m.m23, m.m34, m.m42);
    lemma_four_factors(m.m21, m.m24, m.m33, m.m42);
    lemma_four_factors(m.m21, m.m24, m.m32, m.m43);
    lemma_four_factors(m.m21, m.m22, m.m34, m.m43);
    lemma_four_factors(m.m21, m.m23, m.m32, m.m44);
    lemma_four_factors(m.m21, m.m22, m.m33, m.m44);
    lemma_times_six(
        m.m22, 1, m.m24 * m.m33 * m.m41, -1, m.m23 * m.m34 * m.m41, -1, m.m24 * m.m31 * m.m43, 1,
        m.m21 * m.m34 * m.m43, 1, m.m23 * m.m31 * m.m44, -1, m.m21 * m.m33 * m.m44,
    );
    lemma_four_factors(m.m22, m.m24, m.m33, m.m41);
    lemma_four_factors(m.m22, m.m23, m.m34, m.m41);
    lemma_four_factors(m.m22, m.m24, m.m31, m.m43);
    lemma_four_factors(m.m22, m.m21, m.m34, m.m43);
    lemma_four_factors(m.m22, m.m23, m.m31, m.m44);
    lemma_four_factors(m.m22, m.m21, m.m33, m.m44);
    lemma_times_six(
        m.m23, 1, m.m22 * m.m34 * m.m41, -1, m.m24 * m.m32 * m.m41, 1, m.m24 * m.m31 * m.m42, -1,
        m.m21 * m.m34 * m.m42, -1, m.m22 * m.m31 * m.m44, 1, m.m21 * m.m32 * m.m44,
    );
    lemma_four_factors(m.m23, m.m22, m.m34, m.m41);
    lemma_four_factors(m.m23, m.m24, m.m32, m.m41);
    lemma_four_factors(m.m23, m.m24, m.m31, m.m42);
    lemma_four_factors(m.m23, m.m21, m.m34, m.m42);
    lemma_four_factors(m.m23, m.m22, m.m31, m.m44);
    lemma_four_factors(m.m23, m.m21, m.m32, m.m44);
    lemma_times_six(
        m.m24, 1, m.m23 * m.m32 * m.m41, -1, m.m22 * m.m33 * m.m41, -1, m.m23 * m.m31 * m.m42, 1,
        m.m21 * m.m33 * m.m42, 1, m.m22 * m.m31 * m.m43, -1, m.m21 * m.m32 * m.m43,
    );
    lemma_four_factors(m.m24, m.m23, m.m32, m.m41);
    lemma_four_factors(m.m24, m.m22, m.m33, m.m41);
    lemma_four_factors(m.m24, m.m23, m.m31, m.m42);
    lemma_four_factors(m.m24, m.m21, m.m33, m.m42);
    lemma_four_factors(m.m24, m.m22, m.m31, m.m43);
    lemma_four_factors(m.m24, m.m21, m.m32, m.m43);
}

/// Row 2 of a matrix times column 2 of its adjugate is the determinant.
proof fn lemma_matrix_adjugate_22(m: Mat4)
    ensures
        ({
            let a = m.adjugate::<i64>();
            m.m21 * a.m12 + m.m22 * a.m22 + m.m23 * a.m32 + m.m24 * a.m42 == m.determinant::<i64>()
        }),
{
    lemma_times_six(
        m.m21, 1, m.m14 * m.m33 * m.m42, -1, m.m13 * m.m34 * m.m42, -1, m.m14 * m.m32 * m.m43, 1,
        m.m12 * m.m34 * m.m43, 1, m.m13 * m.m32 * m.m44, -1, m.m12 * m.m33 * m.m44,
    );
    lemma_four_factors(m.m21, m.m14, m.m33, m.m42);
    lemma_four_factors(m.m21, m.m13, m.m34, m.m42);
    lemma_four_factors(m.m21, m.m14, m.m32, m.m43);
    lemma_four_factors(m.m21, m.m12, m.m34, m.m43);
    lemma_four_factors(m.m21, m.m13, m.m32, m.m44);
    lemma_four_factors(m.m21, m.m12, m.m33, m.m44);
    lemma_times_six(
        m.m22, 1, m.m13 * m.m34 * m.m41, -1, m.m14 * m.m33 * m.m41, 1, m.m14 * m.m31 * m.m43, -1,
        m.m11 * m.m34 * m.m43, -1, m.m13 * m.m31 * m.m44, 1, m.m11 * m.m33 * m.m44,
    );
    lemma_four_factors(m.m22, m.m13, m.m34, m.m41);
    lemma_four_factors(m.m22, m.m14, m.m33, m.m41);
    lemma_four_factors(m.m22, m.m14, m.m31, m.m43);
    lemma_four_factors(m.m22, m.m11, m.m34, m.m43);
    lemma_four_factors(m.m22, m.m13, m.m31, m.m44);
    lemma_four_factors(m.m22, m.m11, m.m33, m.m44);
    lemma_times_six(
        m.m23, 1, m.m14 * m.m32 * m.m41, -1, m.m12 * m.m34 * m.m41, -1, m.m14 * m.m31 * m.m42, 1,
        m.m11 * m.m34 * m.m42, 1, m.m12 * m.m31 * m.m44, -1, m.m11 * m.m32 * m.m44,
    );
    lemma_four_factors(m.m23, m.m14, m.m32, m.m41);
    lemma_four_factors(m.m23, m.m12, m.m34, m.m41);
    lemma_four_factors(m.m23, m.m14, m.m31, m.m42);
    lemma_four_factors(m.m23, m.m11, m.m34, m.m42);
    lemma_four_factors(m.m23, m.m12, m.m31, m.m44);
    lemma_four_factors(m.m23, m.m11, m.m32, m.m44);
    lemma_times_six(
        m.m24, 1, m.m12 * m.m33 * m.m41, -1, m.m13 * m.m32 * m.m41, 1, m.m13 * m.m31 * m.m42, -1,
        m.m11 * m.m33 * m.m42, -1, m.m12 * m.m31 * m.m43, 1, m.m11 * m.m32 * m.m43,
    );
    lemma_four_factors(m.m24, m.m12, m.m33, m.m41);
    lemma_four_factors(m.m24, m.m13, m.m32, m.m41);
    lemma_four_factors(m.m24, m.m13, m.m31, m.m42);
    lemma_four_factors(m.m24, m.m11, m.m33, m.m42);
    lemma_four_factors(m.m24, m.m12, m.m31, m.m43);
    lemma_four_factors(m.m24, m.m11, m.m32, m.m43);
    lemma_determinant_sorted(m);
}

/// Row 2 of a matrix times column 3 of its adjugate is zero.
proof fn lemma_matrix_adjugate_23(m: Mat4)
    ensures
        ({
            let a = m.adjugate::<i64>();
            m.m21 * a.m13 + m.m22 * a.m23 + m.m23 * a.m33 + m.m24 * a.m43 == 0
        }),
{
    lemma_times_six(
        m.m21, 1, m.m13 * m.m24 * m.m42, -1, m.m14 * m.m23 * m.m42, 1, m.m14 * m.m22 * m.m43, -1,
        m.m12 * m.m24 * m.m43, -1, m.m13 * m.m22 * m.m44, 1, m.m12 * m.m23 * m.m44,
    );
    lemma_four_factors(m.m21, m.m13, m.m24, m.m42);
    lemma_four_factors(m.m21, m.m14, m.m23, m.m42);
    lemma_four_factors(m.m21, m.m14, m.m22, m.m43);
    lemma_four_factors(m.m21, m.m12, m.m24, m.m43);
    lemma_four_factors(m.m21, m.m13, m.m22, m.m44);
    lemma_four_factors(m.m21, m.m12, m.m23, m.m44);
    lemma_times_six(
        m.m22, 1, m.m14 * m.m23 * m.m41, -1, m.m13 * m.m24 * m.m41, -1, m.m14 * m.m21 * m.m43, 1,
        m.m11 * m.m24 * m.m43, 1, m.m13 * m.m21 * m.m44, -1, m.m11 * m.m23 * m.m44,
    );
    lemma_four_factors(m.m22, m.m14, m.m23, m.m41);
    lemma_four_factors(m.m22, m.m13, m.m24, m.m41);
    lemma_four_factors(m.m22, m.m14, m.m21, m.m43);
    lemma_four_factors(m.m22, m.m11, m.m24, m.m43);
    lemma_four_factors(m.m22, m.m13, m.m21, m.m44);
    lemma_four_factors(m.m22, m.m11, m.m23, m.m44);
    lemma_times_six(
        m.m23, 1, m.m12 * m.m24 * m.m41, -1, m.m14 * m.m22 * m.m41, 1, m.m14 * m.m21 * m.m42, -1,
        m.m11 * m.m24 * m.m42, -1, m.m12 * m.m21 * m.m44, 1, m.m11 * m.m22 * m.m44,
    );
    lemma_four_factors(m.m23, m.m12, m.m24, m.m41);
    lemma_four_factors(m.m23, m.m14, m.m22, m.m41);
    lemma_four_factors(m.m23, m.m14, m.m21, m.m42);
    lemma_four_factors(m.m23, m.m11, m.m24, m.m42);
    lemma_four_factors(m.m23, m.m12, m.m21, m.m44);
    lemma_four_factors(m.m23, m.m11, m.m22, m.m44);
    lemma_times_six(
        m.m24, 1, m.m13 * m.m22 * m.m41, -1, m.m12 * m.m23 * m.m41, -1, m.m13 * m.m21 * m.m42, 1,
        m.m11 * m.m23 * m.m42, 1, m.m12 * m.m21 * m.m43, -1, m.m11 * m.m22 * m.m43,
    );
    lemma_four_factors(m.m24, m.m13, m.m22, m.m41);
    lemma_four_factors(m.m24, m.m12, m.m23, m.m41);
    lemma_four_factors(m.m24, m.m13, m.m21, m.m42);
    lemma_four_factors(m.m24, m.m11, m.m23, m.m42);
    lemma_four_factors(m.m24, m.m12, m.m21, m.m43);
    lemma_four_factors(m.m24, m.m11, m.m22, m.m43);
}

/// Row 2 of a matrix times column 4 of its adjugate is zero.
proof fn lemma_matrix_adjugate_24(m: Mat4)
    ensures
        ({
            let a = m.adjugate::<i64>();
            m.m21 * a.m14 + m.m22 * a.m24 + m.m23 * a.m34 + m.m24 * a.m44 == 0
        }),
{
    lemma_times_six(
        m.m21, 1, m.m14 * m.m23 * m.m32, -1, m.m13 * m.m24 * m.m32, -1, m.m14 * m.m22 * m.m33, 1,
        m.m12 * m.m24 * m.m33, 1, m.m13 * m.m22 * m.m34, -1, m.m12 * m.m23 * m.m34,
    );
    lemma_four_factors(m.m21, m.m14, m.m23, m.m32);
    lemma_four_factors(m.m21, m.m13, m.m24, m.m32);
    lemma_four_factors(m.m21, m.m14, m.m22, m.m33);
    lemma_four_factors(m.m21, m.m12, m.m24, m.m33);
    lemma_four_factors(m.m21, m.m13, m.m22, m.m34);
    lemma_four_factors(m.m21, m.m12, m.m23, m.m34);
    lemma_times_six(
        m.m22, 1, m.m13 * m.m24 * m.m31, -1, m.m14 * m.m23 * m.m31, 1, m.m14 * m.m21 * m.m33, -1,
        m.m11 * m.m24 * m.m33, -1, m.m13 * m.m21 * m.m34, 1, m.m11 * m.m23 * m.m34,
    );
    lemma_four_factors(m.m22, m.m13, m.m24, m.m31);
    lemma_four_factors(m.m22, m.m14, m.m23, m.m31);
    lemma_four_factors(m.m22, m.m14, m.m21, m.m33);
    lemma_four_factors(m.m22, m.m11, m.m24, m.m33);
    lemma_four_factors(m.m22, m.m13, m.m21, m.m34);
    lemma_four_factors(m.m22, m.m11, m.m23, m.m34);
    lemma_times_six(
        m.m23, 1, m.m14 * m.m22 * m.m31, -1, m.m12 * m.m24 * m.m31, -1, m.m14 * m.m21 * m.m32, 1,
        m.m11 * m.m24 * m.m32, 1, m.m12 * m.m21 * m.m34, -1, m.m11 * m.m22 * m.m34,
    );
    lemma_four_factors(m.m23, m.m14, m.m22, m.m31);
    lemma_four_factors(m.m23, m.m12, m.m24, m.m31);
    lemma_four_factors(m.m23, m.m14, m.m21, m.m32);
    lemma_four_factors(m.m23, m.m11, m.m24, m.m32);
    lemma_four_factors(m.m23, m.m12, m.m21, m.m34);
    lemma_four_factors(m.m23, m.m11, m.m22, m.m34);
    lemma_times_six(
        m.m24, 1, m.m12 * m.m23 * m.m31, -1, m.m13 * m.m22 * m.m31, 1, m.m13 * m.m21 * m.m32, -1,
        m.m11 * m.m23 * m.m32, -1, m.m12 * m.m21 * m.m33, 1, m.m11 * m.m22 * m.m33,
    );
    lemma_four_factors(m.m24, m.m12, m.m23, m.m31);
    lemma_four_factors(m.m24, m.m13, m.m22, m.m31);
    lemma_four_factors(m.m24, m.m13, m.m21, m.m32);
    lemma_four_factors(m.m24, m.m11, m.m23, m.m32);
    lemma_four_factors(m.m24, m.m12, m.m21, m.m33);
    lemma_four_factors(m.m24, m.m11, m.m22, m.m33);
}

/// Row 3 of a matrix times column 1 of its adjugate is zero.
proof fn lemma_matrix_adjugate_31(m: Mat4)
    ensures
        ({
            let a = m.adjugate::<i64>();
            m.m31 * a.m11 + m.m32 * a.m21 + m.m33 * a.m31 + m.m34 * a.m41 == 0
        }),
{
    lemma_times_six(
        m.m31, 1, m.m23 * m.m34 * m.m42, -1, m.m24 * m.m33 * m.m42, 1, m.m24 * m.m32 * m.m43, -1,
        m.m22 * m.m34 * m.m43, -1, m.m23 * m.m32 * m.m44, 1, m.m22 * m.m33 * m.m44,
    );
    lemma_four_factors(m.m31, m.m23, m.m34, m.m42);
    lemma_four_factors(m.m31, m.m24, m.m33, m.m42);
    lemma_four_factors(m.m31, m.m24, m.m32, m.m43);
    lemma_four_factors(m.m31, m.m22, m.m34, m.m43);
    lemma_four_factors(m.m31, m.m23, m.m32, m.m44);
    lemma_four_factors(m.m31, m.m22, m.m33, m.m44);
    lemma_times_six(
        m.m32, 1, m.m24 * m.m33 * m.m41, -1, m.m23 * m.m34 * m.m41, -1, m.m24 * m.m31 * m.m43, 1,
        m.m21 * m.m34 * m.m43, 1, m.m23 * m.m31 * m.m44, -1, m.m21 * m.m33 * m.m44,
    );
    lemma_four_factors(m.m32, m.m24, m.m33, m.m41);
    lemma_four_factors(m.m32, m.m23, m.m34, m.m41);
    lemma_four_factors(m.m32, m.m24, m.m31, m.m43);
    lemma_four_factors(m.m32, m.m21, m.m34, m.m43);
    lemma_four_factors(m.m32, m.m23, m.m31, m.m44);
    lemma_four_factors(m.m32, m.m21, m.m33, m.m44);
    lemma_times_six(
        m.m33, 1, m.m22 * m.m34 * m.m41, -1, m.m24 * m.m32 * m.m41, 1, m.m24 * m.m31 * m.m42, -1,
        m.m21 * m.m34 * m.m42, -1, m.m22 * m.m31 * m.m44, 1, m.m21 * m.m32 * m.m44,
    );
    lemma_four_factors(m.m33, m.m22, m.m34, m.m41);
    lemma_four_factors(m.m33, m.m24, m.m32, m.m41);
    lemma_four_factors(m.m33, m.m24, m.m31, m.m42);
    lemma_four_factors(m.m33, m.m21, m.m34, m.m42);
    lemma_four_factors(m.m33, m.m22, m.m31, m.m44);
    lemma_four_factors(m.m33, m.m21, m.m32, m.m44);
    lemma_times_six(
        m.m34, 1, m.m23 * m.m32 * m.m41, -1, m.m22 * m.m33 * m.m41, -1, m.m23 * m.m31 * m.m42, 1,
        m.m21 * m.m33 * m.m42, 1, m.m22 * m.m31 * m.m43, -1, m.m21 * m.m32 * m.m43,
    );
    lemma_four_factors(m.m34, m.m23, m.m32, m.m41);
    lemma_four_factors(m.m34, m.m22, m.m33, m.m41);
    lemma_four_factors(m.m34, m.m23, m.m31, m.m42);
    lemma_four_factors(m.m34, m.m21, m.m33, m.m42);
    lemma_four_factors(m.m34, m.m22, m.m31, m.m43);
    lemma_four_factors(m.m34, m.m21, m.m32, m.m43);
}

/// Row 3 of a matrix times column 2 of its adjugate is zero.
proof fn lemma_matrix_adjugate_32(m: Mat4)
    ensures
        ({
            let a = m.adjugate::<i64>();
            m.m31 * a.m12 + m.m32 * a.m22 + m.m33 * a.m32 + m.m34 * a.m42 == 0
        }),
{
    lemma_times_six(
        m.m31, 1, m.m14 * m.m33 * m.m42, -1, m.m13 * m.m34 * m.m42, -1, m.m14 * m.m32 * m.m43, 1,
        m.m12 * m.m34 * m.m43, 1, m.m13 * m.m32 * m.m44, -1, m.m12 * m.m33 * m.m44,
    );
    lemma_four_factors(m.m31, m.m14, m.m33, m.m42);
    lemma_four_factors(m.m31, m.m13, m.m34, m.m42);
    lemma_four_factors(m.m31, m.m14, m.m32, m.m43);
    lemma_four_factors(m.m31, m.m12, m.m34, m.m43);
    lemma_four_factors(m.m31, m.m13, m.m32, m.m44);
    lemma_four_factors(m.m31, m.m12, m.m33, m.m44);
    lemma_times_six(
        m.m32, 1, m.m13 * m.m34 * m.m41, -1, m.m14 * m.m33 * m.m41, 1, m.m14 * m.m31 * m.m43, -1,
        m.m11 * m.m34 * m.m43, -1, m.m13 * m.m31 * m.m44, 1, m.m11 * m.m33 * m.m44,
    );
    lemma_four_factors(m.m32, m.m13, m.m34, m.m41);
    lemma_four_factors(m.m32, m.m14, m.m33, m.m41);
    lemma_four_factors(m.m32, m.m14, m.m31, m.m43);
    lemma_four_factors(m.m32, m.m11, m.m34, m.m43);
    lemma_four_factors(m.m32, m.m13, m.m31, m.m44);
    lemma_four_factors(m.m32, m.m11, m.m33, m.m44);
    lemma_times_six(
        m.m33, 1, m.m14 * m.m32 * m.m41, -1, m.m12 * m.m34 * m.m41, -1, m.m14 * m.m31 * m.m42, 1,
        m.m11 * m.m34 * m.m42, 1, m.m12 * m.m31 * m.m44, -1, m.m11 * m.m32 * m.m44,
    );
    lemma_four_factors(m.m33, m.m14, m.m32, m.m41);
    lemma_four_factors(m.m33, m.m12, m.m34, m.m41);
    lemma_four_factors(m.m33, m.m14, m.m31, m.m42);
    lemma_four_factors(m.m33, m.m11, m.m34, m.m42);
    lemma_four_factors(m.m33, m.m12, m.m31, m.m44);
    lemma_four_factors(m.m33, m.m11, m.m32, m.m44);
    lemma_times_six(
        m.m34, 1, m.m12 * m.m33 * m.m41, -1, m.m13 * m.m32 * m.m41, 1, m.m13 * m.m31 * m.m42, -1,
        m.m11 * m.m33 * m.m42, -1, m.m12 * m.m31 * m.m43, 1, m.m11 * m.m32 * m.m43,
    );
    lemma_four_factors(m.m34, m.m12, m.m33, m.m41);
    lemma_four_factors(m.m34, m.m13, m.m32, m.m41);
    lemma_four_factors(m.m34, m.m13, m.m31, m.m42);
    lemma_four_factors(m.m34, m.m11, m.m33, m.m42);
    lemma_four_factors(m.m34, m.m12, m.m31, m.m43);
    lemma_four_factors(m.m34, m.m11, m.m32, m.m43);
}

/// Row 3 of a matrix times column 3 of its adjugate is the determinant.
proof fn lemma_matrix_adjugate_33(m: Mat4)
    ensures
        ({
            let a = m.adjugate::<i64>();
            m.m31 * a.m13 + m.m32 * a.m23 + m.m33 * a.m33 + m.m34 * a.m43 == m.determinant::<i64>()
        }),
{
    lemma_times_six(
        m.m31, 1, m.m13 * m.m24 * m.m42, -1, m.m14 * m.m23 * m.m42, 1, m.m14 * m.m22 * m.m43, -1,
        m.m12 * m.m24 * m.m43, -1, m.m13 * m.m22 * m.m44, 1, m.m12 * m.m23 * m.m44,
    );
    lemma_four_factors(m.m31, m.m13, m.m24, m.m42);
    lemma_four_factors(m.m31, m.m14, m.m23, m.m42);
    lemma_four_factors(m.m31, m.m14, m.m22, m.m43);
    lemma_four_factors(m.m31, m.m12, m.m24, m.m43);
    lemma_four_factors(m.m31, m.m13, m.m22, m.m44);
    lemma_four_factors(m.m31, m.m12, m.m23, m.m44);
    lemma_times_six(
        m.m32, 1, m.m14 * m.m23 * m.m41, -1, m.m13 * m.m24 * m.m41, -1, m.m14 * m.m21 * m.m43, 1,
        m.m11 * m.m24 * m.m43, 1, m.m13 * m.m21 * m.m44, -1, m.m11 * m.m23 * m.m44,
    );
    lemma_four_factors(m.m32, m.m14, m.m23, m.m41);
    lemma_four_factors(m.m32, m.m13, m.m24, m.m41);
    lemma_four_factors(m.m32, m.m14, m.m21, m.m43);
    lemma_four_factors(m.m32, m.m11, m.m24, m.m43);
    lemma_four_factors(m.m32, m.m13, m.m21, m.m44);
    lemma_four_factors(m.m32, m.m11, m.m23, m.m44);
    lemma_times_six(
        m.m33, 1, m.m12 * m.m24 * m.m41, -1, m.m14 * m.m22 * m.m41, 1, m.m14 * m.m21 * m.m42, -1,
        m.m11 * m.m24 * m.m42, -1, m.m12 * m.m21 * m.m44, 1, m.m11 * m.m22 * m.m44,
    );
    lemma_four_factors(m.m33, m.m12, m.m24, m.m41);
    lemma_four_factors(m.m33, m.m14, m.m22, m.m41);
    lemma_four_factors(m.m33, m.m14, m.m21, m.m42);
    lemma_four_factors(m.m33, m.m11, m.m24, m.m42);
    lemma_four_factors(m.m33, m.m12, m.m21, m.m44);
    lemma_four_factors(m.m33, m.m11, m.m22, m.m44);
    lemma_times_six(
        m.m34, 1, m.m13 * m.m22 * m.m41, -1, m.m12 * m.m23 * m.m41, -1, m.m13 * m.m21 * m.m42, 1,
        m.m11 * m.m23 * m.m42, 1, m.m12 * m.m21 * m.m43, -1, m.m11 * m.m22 * m.m43,
    );
    lemma_four_factors(m.m34, m.m13, m.m22, m.m41);
    lemma_four_factors(m.m34, m.m12, m.m23, m.m41);
    lemma_four_factors(m.m34, m.m13, m.m21, m.m42);
    lemma_four_factors(m.m34, m.m11, m.m23, m.m42);
    lemma_four_factors(m.m34, m.m12, m.m21, m.m43);
    lemma_four_factors(m.m34, m.m11, m.m22, m.m43);
    lemma_determinant_sorted(m);
}

/// Row 3 of a matrix times column 4 of its adjugate is zero.
proof fn lemma_matrix_adjugate_34(m: Mat4)
    ensures
        ({
            let a = m.adjugate::<i64>();
            m.m31 * a.m14 + m.m32 * a.m24 + m.m33 * a.m34 + m.m34 * a.m44 == 0
        }),
{
    lemma_times_six(
        m.m31, 1, m.m14 * m.m23 * m.m32, -1, m.m13 * m.m24 * m.m32, -1, m.m14 * m.m22 * m.m33, 1,
        m.m12 * m.m24 * m.m33, 1, m.m13 * m.m22 * m.m34, -1, m.m12 * m.m23 * m.m34,
    );
    lemma_four_factors(m.m31, m.m14, m.m23, m.m32);
    lemma_four_factors(m.m31, m.m13, m.m24, m.m32);
    lemma_four_factors(m.m31, m.m14, m.m22, m.m33);
    lemma_four_factors(m.m31, m.m12, m.m24, m.m33);
    lemma_four_factors(m.m31, m.m13, m.m22, m.m34);
    lemma_four_factors(m.m31, m.m12, m.m23, m.m34);
    lemma_times_six(
        m.m32, 1, m.m13 * m.m24 * m.m31, -1, m.m14 * m.m23 * m.m31, 1, m.m14 * m.m21 * m.m33, -1,
        m.m11 * m.m24 * m.m33, -1, m.m13 * m.m21 * m.m34, 1, m.m11 * m.m23 * m.m34,
    );
    lemma_four_factors(m.m32, m.m13, m.m24, m.m31);
    lemma_four_factors(m.m32, m.m14, m.m23, m.m31);
    lemma_four_factors(m.m32, m.m14, m.m21, m.m33);
    lemma_four_factors(m.m32, m.m11, m.m24, m.m33);
    lemma_four_factors(m.m32, m.m13, m.m21, m.m34);
    lemma_four_factors(m.m32, m.m11, m.m23, m.m34);
    lemma_times_six(
        m.m33, 1, m.m14 * m.m22 * m.m31, -1, m.m12 * m.m24 * m.m31, -1, m.m14 * m.m21 * m.m32, 1,
        m.m11 * m.m24 * m.m32, 1, m.m12 * m.m21 * m.m34, -1, m.m11 * m.m22 * m.m34,
    );
    lemma_four_factors(m.m33, m.m14, m.m22, m.m31);
    lemma_four_factors(m.m33, m.m12, m.m24, m.m31);
    lemma_four_factors(m.m33, m.m14, m.m21, m.m32);
    lemma_four_factors(m.m33, m.m11, m.m24, m.m32);
    lemma_four_factors(m.m33, m.m12, m.m21, m.m34);
    lemma_four_factors(m.m33, m.m11, m.m22, m.m34);
    lemma_times_six(
        m.m34, 1, m.m12 * m.m23 * m.m31, -1, m.m13 * m.m22 * m.m31, 1, m.m13 * m.m21 * m.m32, -1,
        m.m11 * m.m23 * m.m32, -1, m.m12 * m.m21 * m.m33, 1, m.m11 * m.m22 * m.m33,
    );
    lemma_four_factors(m.m34, m.m12, m.m23, m.m31);
    lemma_four_factors(m.m34, m.m13, m.m22, m.m31);
    lemma_four_factors(m.m34, m.m13, m.m21, m.m32);
    lemma_four_factors(m.m34, m.m11, m.m23, m.m32);
    lemma_four_factors(m.m34, m.m12, m.m21, m.m33);
    lemma_four_factors(m.m34, m.m11, m.m22, m.m33);
}

/// Row 4 of a matrix times column 1 of its adjugate is zero.
proof fn lemma_matrix_adjugate_41(m: Mat4)
    ensures
        ({
            let a = m.adjugate::<i64>();
            m.m41 * a.m11 + m.m42 * a.m21 + m.m43 * a.m31 + m.m44 * a.m41 == 0
        }),
{
    lemma_times_six(
        m.m41, 1, m.m23 * m.m34 * m.m42, -1, m.m24 * m.m33 * m.m42, 1, m.m24 * m.m32 * m.m43, -1,
        m.m22 * m.m34 * m.m43, -1, m.m23 * m.m32 * m.m44, 1, m.m22 * m.m33 * m.m44,
    );
    lemma_four_factors(m.m41, m.m23, m.m34, m.m42);
    lemma_four_factors(m.m41, m.m24, m.m33, m.m42);
    lemma_four_factors(m.m41, m.m24, m.m32, m.m43);
    lemma_four_factors(m.m41, m.m22, m.m34, m.m43);
    lemma_four_factors(m.m41, m.m23, m.m32, m.m44);
    lemma_four_factors(m.m41, m.m22, m.m33, m.m44);
    lemma_times_six(
        m.m42, 1, m.m24 * m.m33 * m.m41, -1, m.m23 * m.m34 * m.m41, -1, m.m24 * m.m31 * m.m43, 1,
        m.m21 * m.m34 * m.m43, 1, m.m23 * m.m31 * m.m44, -1, m.m21 * m.m33 * m.m44,
    );
    lemma_four_factors(m.m42, m.m24, m.m33, m.m41);
    lemma_four_factors(m.m42, m.m23, m.m34, m.m41);
    lemma_four_factors(m.m42, m.m24, m.m31, m.m43);
    lemma_four_factors(m.m42, m.m21, m.m34, m.m43);
    lemma_four_factors(m.m42, m.m23, m.m31, m.m44);
    lemma_four_factors(m.m42, m.m21, m.m33, m.m44);
    lemma_times_six(
        m.m43, 1, m.m22 * m.m34 * m.m41, -1, m.m24 * m.m32 * m.m41, 1, m.m24 * m.m31 * m.m42, -1,
        m.m21 * m.m34 * m.m42, -1, m.m22 * m.m31 * m.m44, 1, m.m21 * m.m32 * m.m44,
    );
    lemma_four_factors(m.m43, m.m22, m.m34, m.m41);
    lemma_four_factors(m.m43, m.m24, m.m32, m.m41);
    lemma_four_factors(m.m43, m.m24, m.m31, m.m42);
    lemma_four_factors(m.m43, m.m21, m.m34, m.m42);
    lemma_four_factors(m.m43, m.m22, m.m31, m.m44);
    lemma_four_factors(m.m43, m.m21, m.m32, m.m44);
    lemma_times_six(
        m.m44, 1, m.m23 * m.m32 * m.m41, -1, m.m22 * m.m33 * m.m41, -1, m.m23 * m.m31 * m.m42, 1,
        m.m21 * m.m33 * m.m42, 1, m.m22 * m.m31 * m.m43, -1, m.m21 * m.m32 * m.m43,
    );
    lemma_four_factors(m.m44, m.m23, m.m32, m.m41);
    lemma_four_factors(m.m44, m.m22, m.m33, m.m41);
    lemma_four_factors(m.m44, m.m23, m.m31, m.m42);
    lemma_four_factors(m.m44, m.m21, m.m33, m.m42);
    lemma_four_factors(m.m44, m.m22, m.m31, m.m43);
    lemma_four_factors(m.m44, m.m21, m.m32, m.m43);
}

/// Row 4 of a matrix times column 2 of its adjugate is zero.
proof fn lemma_matrix_adjugate_42(m: Mat4)
    ensures
        ({
            let a = m.adjugate::<i64>();
            m.m41 * a.m12 + m.m42 * a.m22 + m.m43 * a.m32 + m.m44 * a.m42 == 0
        }),
{
    lemma_times_six(
        m.m41, 1, m.m14 * m.m33 * m.m42, -1, m.m13 * m.m34 * m.m42, -1, m.m14 * m.m32 * m.m43, 1,
        m.m12 * m.m34 * m.m43, 1, m.m13 * m.m32 * m.m44, -1, m.m12 * m.m33 * m.m44,
    );
    lemma_four_factors(m.m41, m.m14, m.m33, m.m42);
    lemma_four_factors(m.m41, m.m13, m.m34, m.m42);
    lemma_four_factors(m.m41, m.m14, m.m32, m.m43);
    lemma_four_factors(m.m41, m.m12, m.m34, m.m43);
    lemma_four_factors(m.m41, m.m13, m.m32, m.m44);
    lemma_four_factors(m.m41, m.m12, m.m33, m.m44);
    lemma_times_six(
        m.m42, 1, m.m13 * m.m34 * m.m41, -1, m.m14 * m.m33 * m.m41, 1, m.m14 * m.m31 * m.m43, -1,
        m.m11 * m.m34 * m.m43, -1, m.m13 * m.m31 * m.m44, 1, m.m11 * m.m33 * m.m44,
    );
    lemma_four_factors(m.m42, m.m13, m.m34, m.m41);
    lemma_four_factors(m.m42, m.m14, m.m33, m.m41);
    lemma_four_factors(m.m42, m.m14, m.m31, m.m43);
    lemma_four_factors(m.m42, m.m11, m.m34, m.m43);
    lemma_four_factors(m.m42, m.m13, m.m31, m.m44);
    lemma_four_factors(m.m42, m.m11, m.m33, m.m44);
    lemma_times_six(
        m.m43, 1, m.m14 * m.m32 * m.m41, -1, m.m12 * m.m34 * m.m41, -1, m.m14 * m.m31 * m.m42, 1,
        m.m11 * m.m34 * m.m42, 1, m.m12 * m.m31 * m.m44, -1, m.m11 * m.m32 * m.m44,
    );
    lemma_four_factors(m.m43, m.m14, m.m32, m.m41);
    lemma_four_factors(m.m43, m.m12, m.m34, m.m41);
    lemma_four_factors(m.m43, m.m14, m.m31, m.m42);
    lemma_four_factors(m.m43, m.m11, m.m34, m.m42);
    lemma_four_factors(m.m43, m.m12, m.m31, m.m44);
    lemma_four_factors(m.m43, m.m11, m.m32, m.m44);
    lemma_times_six(
        m.m44, 1, m.m12 * m.m33 * m.m41, -1, m.m13 * m.m32 * m.m41, 1, m.m13 * m.m31 * m.m42, -1,
        m.m11 * m.m33 * m.m42, -1, m.m12 * m.m31 * m.m43, 1, m.m11 * m.m32 * m.m43,
    );
    lemma_four_factors(m.m44, m.m12, m.m33, m.m41);
    lemma_four_factors(m.m44, m.m13, m.m32, m.m41);
    lemma_four_factors(m.m44, m.m13, m.m31, m.m42);
    lemma_four_factors(m.m44, m.m11, m.m33, m.m42);
    lemma_four_factors(m.m44, m.m12, m.m31, m.m43);
    lemma_four_factors(m.m44, m.m11, m.m32, m.m43);
}

/// Row 4 of a matrix times column 3 of its adjugate is zero.
proof fn lemma_matrix_adjugate_43(m: Mat4)
    ensures
        ({
            let a = m.adjugate::<i64>();
            m.m41 * a.m13 + m.m42 * a.m23 + m.m43 * a.m33 + m.m44 * a.m43 == 0
        }),
{
    lemma_times_six(
        m.m41, 1, m.m13 * m.m24 * m.m42, -1, m.m14 * m.m23 * m.m42, 1, m.m14 * m.m22 * m.m43, -1,
        m.m12 * m.m24 * m.m43, -1, m.m13 * m.m22 * m.m44, 1, m.m12 * m.m23 * m.m44,
    );
    lemma_four_factors(m.m41, m.m13, m.m24, m.m42);
    lemma_four_factors(m.m41, m.m14, m.m23, m.m42);
    lemma_four_factors(m.m41, m.m14, m.m22, m.m43);
    lemma_four_factors(m.m41, m.m12, m.m24, m.m43);
    lemma_four_factors(m.m41, m.m13, m.m22, m.m44);
    lemma_four_factors(m.m41, m.m12, m.m23, m.m44);
    lemma_times_six(
        m.m42, 1, m.m14 * m.m23 * m.m41, -1, m.m13 * m.m24 * m.m41, -1, m.m14 * m.m21 * m.m43, 1,
        m.m11 * m.m24 * m.m43, 1, m.m13 * m.m21 * m.m44, -1, m.m11 * m.m23 * m.m44,
    );
    lemma_four_factors(m.m42, m.m14, m.m23, m.m41);
    lemma_four_factors(m.m42, m.m13, m.m24, m.m41);
    lemma_four_factors(m.m42, m.m14, m.m21, m.m43);
    lemma_four_factors(m.m42, m.m11, m.m24, m.m43);
    lemma_four_factors(m.m42, m.m13, m.m21, m.m44);
    lemma_four_factors(m.m42, m.m11, m.m23, m.m44);
    lemma_times_six(
        m.m43, 1, m.m12 * m.m24 * m.m41, -1, m.m14 * m.m22 * m.m41, 1, m.m14 * m.m21 * m.m42, -1,
        m.m11 * m.m24 * m.m42, -1, m.m12 * m.m21 * m.m44, 1, m.m11 * m.m22 * m.m44,
    );
    lemma_four_factors(m.m43, m.m12, m.m24, m.m41);
    lemma_four_factors(m.m43, m.m14, m.m22, m.m41);
    lemma_four_factors(m.m43, m.m14, m.m21, m.m42);
    lemma_four_factors(m.m43, m.m11, m.m24, m.m42);
    lemma_four_factors(m.m43, m.m12, m.m21, m.m44);
    lemma_four_factors(m.m43, m.m11, m.m22, m.m44);
    lemma_times_six(
        m.m44, 1, m.m13 * m.m22 * m.m41, -1, m.m12 * m.m23 * m.m41, -1, m.m13 * m.m21 * m.m42, 1,
        m.m11 * m.m23 * m.m42, 1, m.m12 * m.m21 * m.m43, -1, m.m11 * m.m22 * m.m43,
    );
    lemma_four_factors(m.m44, m.m13, m.m22, m.m41);
    lemma_four_factors(m.m44, m.m12, m.m23, m.m41);
    lemma_four_factors(m.m44, m.m13, m.m21, m.m42);
    lemma_four_factors(m.m44, m.m11, m.m23, m.m42);
    lemma_four_factors(m.m44, m.m12, m.m21, m.m43);
    lemma_four_factors(m.m44, m.m11, m.m22, m.m43);
}

/// Row 4 of a matrix times column 4 of its adjugate is the determinant.
proof fn lemma_matrix_adjugate_44(m: Mat4)
    ensures
        ({
            let a = m.adjugate::<i64>();
            m.m41 * a.m14 + m.m42 * a.m24 + m.m43 * a.m34 + m.m44 * a.m44 == m.determinant::<i64>()
        }),
{
    lemma_times_six(
        m.m41, 1, m.m14 * m.m23 * m.m32, -1, m.m13 * m.m24 * m.m32, -1, m.m14 * m.m22 * m.m33, 1,
        m.m12 * m.m24 * m.m33, 1, m.m13 * m.m22 * m.m34, -1, m.m12 * m.m23 * m.m34,
    );
    lemma_four_factors(m.m41, m.m14, m.m23, m.m32);
    lemma_four_factors(m.m41, m.m13, m.m24, m.m32);
    lemma_four_factors(m.m41, m.m14, m.m22, m.m33);
    lemma_four_factors(m.m41, m.m12, m.m24, m.m33);
    lemma_four_factors(m.m41, m.m13, m.m22, m.m34);
    lemma_four_factors(m.m41, m.m12, m.m23, m.m34);
    lemma_times_six(
        m.m42, 1, m.m13 * m.m24 * m.m31, -1, m.m14 * m.m23 * m.m31, 1, m.m14 * m.m21 * m.m33, -1,
        m.m11 * m.m24 * m.m33, -1, m.m13 * m.m21 * m.m34, 1, m.m11 * m.m23 * m.m34,
    );
    lemma_four_factors(m.m42, m.m13, m.m24, m.m31);
    lemma_four_factors(m.m42, m.m14, m.m23, m.m31);
    lemma_four_factors(m.m42, m.m14, m.m21, m.m33);
    lemma_four_factors(m.m42, m.m11, m.m24, m.m33);
    lemma_four_factors(m.m42, m.m13, m.m21, m.m34);
    lemma_four_factors(m.m42, m.m11, m.m23, m.m34);
    lemma_times_six(
        m.m43, 1, m.m14 * m.m22 * m.m31, -1, m.m12 * m.m24 * m.m31, -1, m.m14 * m.m21 * m.m32, 1,
        m.m11 * m.m24 * m.m32, 1, m.m12 * m.m21 * m.m34, -1, m.m11 * m.m22 * m.m34,
    );
    lemma_four_factors(m.m43, m.m14, m.m22, m.m31);
    lemma_four_factors(m.m43, m.m12, m.m24, m.m31);
    lemma_four_factors(m.m43, m.m14, m.m21, m.m32);
    lemma_four_factors(m.m43, m.m11, m.m24, m.m32);
    lemma_four_factors(m.m43, m.m12, m.m21, m.m34);
    lemma_four_factors(m.m43, m.m11, m.m22, m.m34);
    lemma_times_six(
        m.m44, 1, m.m12 * m.m23 * m.m31, -1, m.m13 * m.m22 * m.m31, 1, m.m13 * m.m21 * m.m32, -1,
        m.m11 * m.m23 * m.m32, -1, m.m12 * m.m21 * m.m33, 1, m.m11 * m.m22 * m.m33,
    );
    lemma_four_factors(m.m44, m.m12, m.m23, m.m31);
    lemma_four_factors(m.m44, m.m13, m.m22, m.m31);
    lemma_four_factors(m.m44, m.m13, m.m21, m.m32);
    lemma_four_factors(m.m44, m.m11, m.m23, m.m32);
    lemma_four_factors(m.m44, m.m12, m.m21, m.m33);
    lemma_four_factors(m.m44, m.m11, m.m22, m.m33);
    lemma_determinant_sorted(m);
}

/// Row 1 of the adjugate of a matrix times column 1 of the matrix is the determinant.
proof fn lemma_adjugate_matrix_11(m: Mat4)
    ensures
        ({
            let a = m.adjugate::<i64>();
            a.m11 * m.m11 + a.m12 * m.m21 + a.m13 * m.m31 + a.m14 * m.m41 == m.determinant::<i64>()
        }),
{
    lemma_times_six(
        m.m11, 1, m.m23 * m.m34 * m.m42, -1, m.m24 * m.m33 * m.m42, 1, m.m24 * m.m32 * m.m43, -1,
        m.m22 * m.m34 * m.m43, -1, m.m23 * m.m32 * m.m44, 1, m.m22 * m.m33 * m.m44,
    );
    lemma_four_factors(m.m11, m.m23, m.m34, m.m42);
    lemma_four_factors(m.m11, m.m24, m.m33, m.m42);
    lemma_four_factors(m.m11, m.m24, m.m32, m.m43);
    lemma_four_factors(m.m11, m.m22, m.m34, m.m43);
    lemma_four_factors(m.m11, m.m23, m.m32, m.m44);
    lemma_four_factors(m.m11, m.m22, m.m33, m.m44);
    lemma_times_six(
        m.m21, 1, m.m14 * m.m33 * m.m42, -1, m.m13 * m.m34 * m.m42, -1, m.m14 * m.m32 * m.m43, 1,
        m.m12 * m.m34 * m.m43, 1, m.m13 * m.m32 * m.m44, -1, m.m12 * m.m33 * m.m44,
    );
    lemma_four_factors(m.m21, m.m14, m.m33, m.m42);
    lemma_four_factors(m.m21, m.m13, m.m34, m.m42);
    lemma_four_factors(m.m21, m.m14, m.m32, m.m43);
    lemma_four_factors(m.m21, m.m12, m.m34, m.m43);
    lemma_four_factors(m.m21, m.m13, m.m32, m.m44);
    lemma_four_factors(m.m21, m.m12, m.m33, m.m44);
    lemma_times_six(
        m.m31, 1, m.m13 * m.m24 * m.m42, -1, m.m14 * m.m23 * m.m42, 1, m.m14 * m.m22 * m.m43, -1,
        m.m12 * m.m24 * m.m43, -1, m.m13 * m.m22 * m.m44, 1, m.m12 * m.m23 * m.m44,
    );
    lemma_four_factors(m.m31, m.m13, m.m24, m.m42);
    lemma_four_factors(m.m31, m.m14, m.m23, m.m42);
    lemma_four_factors(m.m31, m.m14, m.m22, m.m43);
    lemma_four_factors(m.m31, m.m12, m.m24, m.m43);
    lemma_four_factors(m.m31, m.m13, m.m22, m.m44);
    lemma_four_factors(m.m31, m.m12, m.m23, m.m44);
    lemma_times_six(
        m.m41, 1, m.m14 * m.m23 * m.m32, -1, m.m13 * m.m24 * m.m32, -1, m.m14 * m.m22 * m.m33, 1,
        m.m12 * m.m24 * m.m33, 1, m.m13 * m.m22 * m.m34, -1, m.m12 * m.m23 * m.m34,
    );
    lemma_four_factors(m.m41, m.m14, m.m23, m.m32);
    lemma_four_factors(m.m41, m.m13, m.m24, m.m32);
    lemma_four_factors(m.m41, m.m14, m.m22, m.m33);
    lemma_four_factors(m.m41, m.m12, m.m24, m.m33);
    lemma_four_factors(m.m41, m.m13, m.m22, m.m34);
    lemma_four_factors(m.m41, m.m12, m.m23, m.m34);
    lemma_determinant_sorted(m);
}

/// Row 1 of the adjugate of a matrix times column 2 of the matrix is zero.
proof fn lemma_adjugate_matrix_12(m: Mat4)
    ensures
        ({
            let a = m.adjugate::<i64>();
            a.m11 * m.m12 + a.m12 * m.m22 + a.m13 * m.m32 + a.m14 * m.m42 == 0
        }),
{
    lemma_times_six(
        m.m12, 1, m.m23 * m.m34 * m.m42, -1, m.m24 * m.m33 * m.m42, 1, m.m24 * m.m32 * m.m43, -1,
        m.m22 * m.m34 * m.m43, -1, m.m23 * m.m32 * m.m44, 1, m.m22 * m.m33 * m.m44,
    );
    lemma_four_factors(m.m12, m.m23, m.m34, m.m42);
    lemma_four_factors(m.m12, m.m24, m.m33, m.m42);
    lemma_four_factors(m.m12, m.m24, m.m32, m.m43);
    lemma_four_factors(m.m12, m.m22, m.m34, m.m43);
    lemma_four_factors(m.m12, m.m23, m.m32, m.m44);
    lemma_four_factors(m.m12, m.m22, m.m33, m.m44);
    lemma_times_six(
        m.m22, 1, m.m14 * m.m33 * m.m42, -1, m.m13 * m.m34 * m.m42, -1, m.m14 * m.m32 * m.m43, 1,
        m.m12 * m.m34 * m.m43, 1, m.m13 * m.m32 * m.m44, -1, m.m12 * m.m33 * m.m44,
    );
    lemma_four_factors(m.m22, m.m14, m.m33, m.m42);
    lemma_four_factors(m.m22, m.m13, m.m34, m.m42);
    lemma_four_factors(m.m22, m.m14, m.m32, m.m43);
    lemma_four_factors(m.m22, m.m12, m.m34, m.m43);
    lemma_four_factors(m.m22, m.m13, m.m32, m.m44);
    lemma_four_factors(m.m22, m.m12, m.m33, m.m44);
    lemma_times_six(
        m.m32, 1, m.m13 * m.m24 * m.m42, -1, m.m14 * m.m23 * m.m42, 1, m.m14 * m.m22 * m.m43, -1,
        m.m12 * m.m24 * m.m43, -1, m.m13 * m.m22 * m.m44, 1, m.m12 * m.m23 * m.m44,
    );
    lemma_four_factors(m.m32, m.m13, m.m24, m.m42);
    lemma_four_factors(m.m32, m.m14, m.m23, m.m42);
    lemma_four_factors(m.m32, m.m14, m.m22, m.m43);
    lemma_four_factors(m.m32, m.m12, m.m24, m.m43);
    lemma_four_factors(m.m32, m.m13, m.m22, m.m44);
    lemma_four_factors(m.m32, m.m12, m.m23, m.m44);
    lemma_times_six(
        m.m42, 1, m.m14 * m.m23 * m.m32, -1, m.m13 * m.m24 * m.m32, -1, m.m14 * m.m22 * m.m33, 1,
        m.m12 * m.m24 * m.m33, 1, m.m13 * m.m22 * m.m34, -1, m.m12 * m.m23 * m.m34,
    );
    lemma_four_factors(m.m42, m.m14, m.m23, m.m32);
    lemma_four_factors(m.m42, m.m13, m.m24, m.m32);
    lemma_four_factors(m.m42, m.m14, m.m22, m.m33);
    lemma_four_factors(m.m42, m.m12, m.m24, m.m33);
    lemma_four_factors(m.m42, m.m13, m.m22, m.m34);
    lemma_four_factors(m.m42, m.m12, m.m23, m.m34);
}

/// Row 1 of the adjugate of a matrix times column 3 of the matrix is zero.
proof fn lemma_adjugate_matrix_13(m: Mat4)
    ensures
        ({
            let a = m.adjugate::<i64>();
            a.m11 * m.m13 + a.m12 * m.m23 + a.m13 * m.m33 + a.m14 * m.m43 == 0
        }),
{
    lemma_times_six(
        m.m13, 1, m.m23 * m.m34 * m.m42, -1, m.m24 * m.m33 * m.m42, 1, m.m24 * m.m32 * m.m43, -1,
        m.m22 * m.m34 * m.m43, -1, m.m23 * m.m32 * m.m44, 1, m.m22 * m.m33 * m.m44,
    );
    lemma_four_factors(m.m13, m.m23, m.m34, m.m42);
    lemma_four_factors(m.m13, m.m24, m.m33, m.m42);
    lemma_four_factors(m.m13, m.m24, m.m32, m.m43);
    lemma_four_factors(m.m13, m.m22, m.m34, m.m43);
    lemma_four_factors(m.m13, m.m23, m.m32, m.m44);
    lemma_four_factors(m.m13, m.m22, m.m33, m.m44);
    lemma_times_six(
        m.m23, 1, m.m14 * m.m33 * m.m42, -1, m.m13 * m.m34 * m.m42, -1, m.m14 * m.m32 * m.m43, 1,
        m.m12 * m.m34 * m.m43, 1, m.m13 * m.m32 * m.m44, -1, m.m12 * m.m33 * m.m44,
    );
    lemma_four_factors(m.m23, m.m14, m.m33, m.m42);
    lemma_four_factors(m.m23, m.m13, m.m34, m.m42);
    lemma_four_factors(m.m23, m.m14, m.m32, m.m43);
    lemma_four_factors(m.m23, m.m12, m.m34, m.m43);
    lemma_four_factors(m.m23, m.m13, m.m32, m.m44);
    lemma_four_factors(m.m23, m.m12, m.m33, m.m44);
    lemma_times_six(
        m.m33, 1, m.m13 * m.m24 * m.m42, -1, m.m14 * m.m23 * m.m42, 1, m.m14 * m.m22 * m.m43, -1,
        m.m12 * m.m24 * m.m43, -1, m.m13 * m.m22 * m.m44, 1, m.m12 * m.m23 * m.m44,
    );
    lemma_four_factors(m.m33, m.m13, m.m24, m.m42);
    lemma_four_factors(m.m33, m.m14, m.m23, m.m42);
    lemma_four_factors(m.m33, m.m14, m.m22, m.m43);
    lemma_four_factors(m.m33, m.m12, m.m24, m.m43);
    lemma_four_factors(m.m33, m.m13, m.m22, m.m44);
    lemma_four_factors(m.m33, m.m12, m.m23, m.m44);
    lemma_times_six(
        m.m43, 1, m.m14 * m.m23 * m.m32, -1, m.m13 * m.m24 * m.m32, -1, m.m14 * m.m22 * m.m33, 1,
        m.m12 * m.m24 * m.m33, 1, m.m13 * m.m22 * m.m34, -1, m.m12 * m.m23 * m.m34,
    );
    lemma_four_factors(m.m43, m.m14, m.m23, m.m32);
    lemma_four_factors(m.m43, m.m13, m.m24, m.m32);
    lemma_four_factors(m.m43, m.m14, m.m22, m.m33);
    lemma_four_factors(m.m43, m.m12, m.m24, m.m33);
    lemma_four_factors(m.m43, m.m13, m.m22, m.m34);
    lemma_four_factors(m.m43, m.m12, m.m23, m.m34);
}

/// Row 1 of the adjugate of a matrix times column 4 of the matrix is zero.
proof fn lemma_adjugate_matrix_14(m: Mat4)
    ensures
        ({
            let a = m.adjugate::<i64>();
            a.m11 * m.m14 + a.m12 * m.m24 + a.m13 * m.m34 + a.m14 * m.m44 == 0
        }),
{
    lemma_times_six(
        m.m14, 1, m.m23 * m.m34 * m.m42, -1, m.m24 * m.m33 * m.m42, 1, m.m24 * m.m32 * m.m43, -1,
        m.m22 * m.m34 * m.m43, -1, m.m23 * m.m32 * m.m44, 1, m.m22 * m.m33 * m.m44,
    );
    lemma_four_factors(m.m14, m.m23, m.m34, m.m42);
    lemma_four_factors(m.m14, m.m24, m.m33, m.m42);
    lemma_four_factors(m.m14, m.m24, m.m32, m.m43);
    lemma_four_factors(m.m14, m.m22, m.m34, m.m43);
    lemma_four_factors(m.m14, m.m23, m.m32, m.m44);
    lemma_four_factors(m.m14, m.m22, m.m33, m.m44);
    lemma_times_six(
        m.m24, 1, m.m14 * m.m33 * m.m42, -1, m.m13 * m.m34 * m.m42, -1, m.m14 * m.m32 * m.m43, 1,
        m.m12 * m.m34 * m.m43, 1, m.m13 * m.m32 * m.m44, -1, m.m12 * m.m33 * m.m44,
    );
    lemma_four_factors(m.m24, m.m14, m.m33, m.m42);
    lemma_four_factors(m.m24, m.m13, m.m34, m.m42);
    lemma_four_factors(m.m24, m.m14, m.m32, m.m43);
    lemma_four_factors(m.m24, m.m12, m.m34, m.m43);
    lemma_four_factors(m.m24, m.m13, m.m32, m.m44);
    lemma_four_factors(m.m24, m.m12, m.m33, m.m44);
    lemma_times_six(
        m.m34, 1, m.m13 * m.m24 * m.m42, -1, m.m14 * m.m23 * m.m42, 1, m.m14 * m.m22 * m.m43, -1,
        m.m12 * m.m24 * m.m43, -1, m.m13 * m.m22 * m.m44, 1, m.m12 * m.m23 * m.m44,
    );
    lemma_four_factors(m.m34, m.m13, m.m24, m.m42);
    lemma_four_factors(m.m34, m.m14, m.m23, m.m42);
    lemma_four_factors(m.m34, m.m14, m.m22, m.m43);
    lemma_four_factors(m.m34, m.m12, m.m24, m.m43);
    lemma_four_factors(m.m34, m.m13, m.m22, m.m44);
    lemma_four_factors(m.m34, m.m12, m.m23, m.m44);
    lemma_times_six(
        m.m44, 1, m.m14 * m.m23 * m.m32, -1, m.m13 * m.m24 * m.m32, -1, m.m14 * m.m22 * m.m33, 1,
        m.m12 * m.m24 * m.m33, 1, m.m13 * m.m22 * m.m34, -1, m.m12 * m.m23 * m.m34,
    );
    lemma_four_factors(m.m44, m.m14, m.m23, m.m32);
    lemma_four_factors(m.m44, m.m13, m.m24, m.m32);
    lemma_four_factors(m.m44, m.m14, m.m22, m.m33);
    lemma_four_factors(m.m44, m.m12, m.m24, m.m33);
    lemma_four_factors(m.m44, m.m13, m.m22, m.m34);
    lemma_four_factors(m.m44, m.m12, m.m23, m.m34);
}

/// Row 2 of the adjugate of a matrix times column 1 of the matrix is zero.
proof fn lemma_adjugate_matrix_21(m: Mat4)
    ensures
        ({
            let a = m.adjugate::<i64>();
            a.m21 * m.m11 + a.m22 * m.m21 + a.m23 * m.m31 + a.m24 * m.m41 == 0
        }),
{
    lemma_times_six(
        m.m11, 1, m.m24 * m.m33 * m.m41, -1, m.m23 * m.m34 * m.m41, -1, m.m24 * m.m31 * m.m43, 1,
        m.m21 * m.m34 * m.m43, 1, m.m23 * m.m31 * m.m44, -1, m.m21 * m.m33 * m.m44,
    );
    lemma_four_factors(m.m11, m.m24, m.m33, m.m41);
    lemma_four_factors(m.m11, m.m23, m.m34, m.m41);
    lemma_four_factors(m.m11, m.m24, m.m31, m.m43);
    lemma_four_factors(m.m11, m.m21, m.m34, m.m43);
    lemma_four_factors(m.m11, m.m23, m.m31, m.m44);
    lemma_four_factors(m.m11, m.m21, m.m33, m.m44);
    lemma_times_six(
        m.m21, 1, m.m13 * m.m34 * m.m41, -1, m.m14 * m.m33 * m.m41, 1, m.m14 * m.m31 * m.m43, -1,
        m.m11 * m.m34 * m.m43, -1, m.m13 * m.m31 * m.m44, 1, m.m11 * m.m33 * m.m44,
    );
    lemma_four_factors(m.m21, m.m13, m.m34, m.m41);
    lemma_four_factors(m.m21, m.m14, m.m33, m.m41);
    lemma_four_factors(m.m21, m.m14, m.m31, m.m43);
    lemma_four_factors(m.m21, m.m11, m.m34, m.m43);
    lemma_four_factors(m.m21, m.m13, m.m31, m.m44);
    lemma_four_factors(m.m21, m.m11, m.m33, m.m44);
    lemma_times_six(
        m.m31, 1, m.m14 * m.m23 * m.m41, -1, m.m13 * m.m24 * m.m41, -1, m.m14 * m.m21 * m.m43, 1,
        m.m11 * m.m24 * m.m43, 1, m.m13 * m.m21 * m.m44, -1, m.m11 * m.m23 * m.m44,
    );
    lemma_four_factors(m.m31, m.m14, m.m23, m.m41);
    lemma_four_factors(m.m31, m.m13, m.m24, m.m41);
    lemma_four_factors(m.m31, m.m14, m.m21, m.m43);
    lemma_four_factors(m.m31, m.m11, m.m24, m.m43);
    lemma_four_factors(m.m31, m.m13, m.m21, m.m44);
    lemma_four_factors(m.m31, m.m11, m.m23, m.m44);
    lemma_times_six(
        m.m41, 1, m.m13 * m.m24 * m.m31, -1, m.m14 * m.m23 * m.m31, 1, m.m14 * m.m21 * m.m33, -1,
        m.m11 * m.m24 * m.m33, -1, m.m13 * m.m21 * m.m34, 1, m.m11 * m.m23 * m.m34,
    );
    lemma_four_factors(m.m41, m.m13, m.m24, m.m31);
    lemma_four_factors(m.m41, m.m14, m.m23, m.m31);
    lemma_four_factors(m.m41, m.m14, m.m21, m.m33);
    lemma_four_factors(m.m41, m.m11, m.m24, m.m33);
    lemma_four_factors(m.m41, m.m13, m.m21, m.m34);
    lemma_four_factors(m.m41, m.m11, m.m23, m.m34);
}

/// Row 2 of the adjugate of a matrix times column 2 of the matrix is the determinant.
proof fn lemma_adjugate_matrix_22(m: Mat4)
    ensures
        ({
            let a = m.adjugate::<i64>();
            a.m21 * m.m12 + a.m22 * m.m22 + a.m23 * m.m32 + a.m24 * m.m42 == m.determinant::<i64>()
        }),
{
    lemma_times_six(
        m.m12, 1, m.m24 * m.m33 * m.m41, -1, m.m23 * m.m34 * m.m41, -1, m.m24 * m.m31 * m.m43, 1,
        m.m21 * m.m34 * m.m43, 1, m.m23 * m.m31 * m.m44, -1, m.m21 * m.m33 * m.m44,
    );
    lemma_four_factors(m.m12, m.m24, m.m33, m.m41);
    lemma_four_factors(m.m12, m.m23, m.m34, m.m41);
    lemma_four_factors(m.m12, m.m24, m.m31, m.m43);
    lemma_four_factors(m.m12, m.m21, m.m34, m.m43);
    lemma_four_factors(m.m12, m.m23, m.m31, m.m44);
    lemma_four_factors(m.m12, m.m21, m.m33, m.m44);
    lemma_times_six(
        m.m22, 1, m.m13 * m.m34 * m.m41, -1, m.m14 * m.m33 * m.m41, 1, m.m14 * m.m31 * m.m43, -1,
        m.m11 * m.m34 * m.m43, -1, m.m13 * m.m31 * m.m44, 1, m.m11 * m.m33 * m.m44,
    );
    lemma_four_factors(m.m22, m.m13, m.m34, m.m41);
    lemma_four_factors(m.m22, m.m14, m.m33, m.m41);
    lemma_four_factors(m.m22, m.m14, m.m31, m.m43);
    lemma_four_factors(m.m22, m.m11, m.m34, m.m43);
    lemma_four_factors(m.m22, m.m13, m.m31, m.m44);
    lemma_four_factors(m.m22, m.m11, m.m33, m.m44);
    lemma_times_six(
        m.m32, 1, m.m14 * m.m23 * m.m41, -1, m.m13 * m.m24 * m.m41, -1, m.m14 * m.m21 * m.m43, 1,
        m.m11 * m.m24 * m.m43, 1, m.m13 * m.m21 * m.m44, -1, m.m11 * m.m23 * m.m44,
    );
    lemma_four_factors(m.m32, m.m14, m.m23, m.m41);
    lemma_four_factors(m.m32, m.m13, m.m24, m.m41);
    lemma_four_factors(m.m32, m.m14, m.m21, m.m43);
    lemma_four_factors(m.m32, m.m11, m.m24, m.m43);
    lemma_four_factors(m.m32, m.m13, m.m21, m.m44);
    lemma_four_factors(m.m32, m.m11, m.m23, m.m44);
    lemma_times_six(
        m.m42, 1, m.m13 * m.m24 * m.m31, -1, m.m14 * m.m23 * m.m31, 1, m.m14 * m.m21 * m.m33, -1,
        m.m11 * m.m24 * m.m33, -1, m.m13 * m.m21 * m.m34, 1, m.m11 * m.m23 * m.m34,
    );
    lemma_four_factors(m.m42, m.m13, m.m24, m.m31);
    lemma_four_factors(m.m42, m.m14, m.m23, m.m31);
    lemma_four_factors(m.m42, m.m14, m.m21, m.m33);
    lemma_four_factors(m.m42, m.m11, m.m24, m.m33);
    lemma_four_factors(m.m42, m.m13, m.m21, m.m34);
    lemma_four_factors(m.m42, m.m11, m.m23, m.m34);
    lemma_determinant_sorted(m);
}

/// Row 2 of the adjugate of a matrix times column 3 of the matrix is zero.
proof fn lemma_adjugate_matrix_23(m: Mat4)
    ensures
        ({
            let a = m.adjugate::<i64>();
            a.m21 * m.m13 + a.m22 * m.m23 + a.m23 * m.m33 + a.m24 * m.m43 == 0
        }),
{
    lemma_times_six(
        m.m13, 1, m.m24 * m.m33 * m.m41, -1, m.m23 * m.m34 * m.m41, -1, m.m24 * m.m31 * m.m43, 1,
        m.m21 * m.m34 * m.m43, 1, m.m23 * m.m31 * m.m44, -1, m.m21 * m.m33 * m.m44,
    );
    lemma_four_factors(m.m13, m.m24, m.m33, m.m41);
    lemma_four_factors(m.m13, m.m23, m.m34, m.m41);
    lemma_four_factors(m.m13, m.m24, m.m31, m.m43);
    lemma_four_factors(m.m13, m.m21, m.m34, m.m43);
    lemma_four_factors(m.m13, m.m23, m.m31, m.m44);
    lemma_four_factors(m.m13, m.m21, m.m33, m.m44);
    lemma_times_six(
        m.m23, 1, m.m13 * m.m34 * m.m41, -1, m.m14 * m.m33 * m.m41, 1, m.m14 * m.m31 * m.m43, -1,
        m.m11 * m.m34 * m.m43, -1, m.m13 * m.m31 * m.m44, 1, m.m11 * m.m33 * m.m44,
    );
    lemma_four_factors(m.m23, m.m13, m.m34, m.m41);
    lemma_four_factors(m.m23, m.m14, m.m33, m.m41);
    lemma_four_factors(m.m23, m.m14, m.m31, m.m43);
    lemma_four_factors(m.m23, m.m11, m.m34, m.m43);
    lemma_four_factors(m.m23, m.m13, m.m31, m.m44);
    lemma_four_factors(m.m23, m.m11, m.m33, m.m44);
    lemma_times_six(
        m.m33, 1, m.m14 * m.m23 * m.m41, -1, m.m13 * m.m24 * m.m41, -1, m.m14 * m.m21 * m.m43, 1,
        m.m11 * m.m24 * m.m43, 1, m.m13 * m.m21 * m.m44, -1, m.m11 * m.m23 * m.m44,
    );
    lemma_four_factors(m.m33, m.m14, m.m23, m.m41);
    lemma_four_factors(m.m33, m.m13, m.m24, m.m41);
    lemma_four_factors(m.m33, m.m14, m.m21, m.m43);
    lemma_four_factors(m.m33, m.m11, m.m24, m.m43);
    lemma_four_factors(m.m33, m.m13, m.m21, m.m44);
    lemma_four_factors(m.m33, m.m11, m.m23, m.m44);
    lemma_times_six(
        m.m43, 1, m.m13 * m.m24 * m.m31, -1, m.m14 * m.m23 * m.m31, 1, m.m14 * m.m21 * m.m33, -1,
        m.m11 * m.m24 * m.m33, -1, m.m13 * m.m21 * m.m34, 1, m.m11 * m.m23 * m.m34,
    );
    lemma_four_factors(m.m43, m.m13, m.m24, m.m31);
    lemma_four_factors(m.m43, m.m14, m.m23, m.m31);
    lemma_four_factors(m.m43, m.m14, m.m21, m.m33);
    lemma_four_factors(m.m43, m.m11, m.m24, m.m33);
    lemma_four_factors(m.m43, m.m13, m.m21, m.m34);
    lemma_four_factors(m.m43, m.m11, m.m23, m.m34);
}

/// Row 2 of the adjugate of a matrix times column 4 of the matrix is zero.
proof fn lemma_adjugate_matrix_24(m: Mat4)
    ensures
        ({
            let a = m.adjugate::<i64>();
            a.m21 * m.m14 + a.m22 * m.m24 + a.m23 * m.m34 + a.m24 * m.m44 == 0
        }),
{
    lemma_times_six(
        m.m14, 1, m.m24 * m.m33 * m.m41, -1, m.m23 * m.m34 * m.m41, -1, m.m24 * m.m31 * m.m43, 1,
        m.m21 * m.m34 * m.m43, 1, m.m23 * m.m31 * m.m44, -1, m.m21 * m.m33 * m.m44,
    );
    lemma_four_factors(m.m14, m.m24, m.m33, m.m41);
    lemma_four_factors(m.m14, m.m23, m.m34, m.m41);
    lemma_four_factors(m.m14, m.m24, m.m31, m.m43);
    lemma_four_factors(m.m14, m.m21, m.m34, m.m43);
    lemma_four_factors(m.m14, m.m23, m.m31, m.m44);
    lemma_four_factors(m.m14, m.m21, m.m33, m.m44);
    lemma_times_six(
        m.m24, 1, m.m13 * m.m34 * m.m41, -1, m.m14 * m.m33 * m.m41, 1, m.m14 * m.m31 * m.m43, -1,
        m.m11 * m.m34 * m.m43, -1, m.m13 * m.m31 * m.m44, 1, m.m11 * m.m33 * m.m44,
    );
    lemma_four_factors(m.m24, m.m13, m.m34, m.m41);
    lemma_four_factors(m.m24, m.m14, m.m33, m.m41);
    lemma_four_factors(m.m24, m.m14, m.m31, m.m43);
    lemma_four_factors(m.m24, m.m11, m.m34, m.m43);
    lemma_four_factors(m.m24, m.m13, m.m31, m.m44);
    lemma_four_factors(m.m24, m.m11, m.m33, m.m44);
    lemma_times_six(
        m.m34, 1, m.m14 * m.m23 * m.m41, -1, m.m13 * m.m24 * m.m41, -1, m.m14 * m.m21 * m.m43, 1,
        m.m11 * m.m24 * m.m43, 1, m.m13 * m.m21 * m.m44, -1, m.m11 * m.m23 * m.m44,
    );
    lemma_four_factors(m.m34, m.m14, m.m23, m.m41);
    lemma_four_factors(m.m34, m.m13, m.m24, m.m41);
    lemma_four_factors(m.m34, m.m14, m.m21, m.m43);
    lemma_four_factors(m.m34, m.m11, m.m24, m.m43);
    lemma_four_factors(m.m34, m.m13, m.m21, m.m44);
    lemma_four_factors(m.m34, m.m11, m.m23, m.m44);
    lemma_times_six(
        m.m44, 1, m.m13 * m.m24 * m.m31, -1, m.m14 * m.m23 * m.m31, 1, m.m14 * m.m21 * m.m33, -1,
        m.m11 * m.m24 * m.m33, -1, m.m13 * m.m21 * m.m34, 1, m.m11 * m.m23 * m.m34,
    );
    lemma_four_factors(m.m44, m.m13, m.m24, m.m31);
    lemma_four_factors(m.m44, m.m14, m.m23, m.m31);
    lemma_four_factors(m.m44, m.m14, m.m21, m.m33);
    lemma_four_factors(m.m44, m.m11, m.m24, m.m33);
    lemma_four_factors(m.m44, m.m13, m.m21, m.m34);
    lemma_four_factors(m.m44, m.m11, m.m23, m.m34);
}

/// Row 3 of the adjugate of a matrix times column 1 of the matrix is zero.
proof fn lemma_adjugate_matrix_31(m: Mat4)
    ensures
        ({
            let a = m.adjugate::<i64>();
            a.m31 * m.m11 + a.m32 * m.m21 + a.m33 * m.m31 + a.m34 * m.m41 == 0
        }),
{
    lemma_times_six(
        m.m11, 1, m.m22 * m.m34 * m.m41, -1, m.m24 * m.m32 * m.m41, 1, m.m24 * m.m31 * m.m42, -1,
        m.m21 * m.m34 * m.m42, -1, m.m22 * m.m31 * m.m44, 1, m.m21 * m.m32 * m.m44,
    );
    lemma_four_factors(m.m11, m.m22, m.m34, m.m41);
    lemma_four_factors(m.m11, m.m24, m.m32, m.m41);
    lemma_four_factors(m.m11, m.m24, m.m31, m.m42);
    lemma_four_factors(m.m11, m.m21, m.m34, m.m42);
    lemma_four_factors(m.m11, m.m22, m.m31, m.m44);
    lemma_four_factors(m.m11, m.m21, m.m32, m.m44);
    lemma_times_six(
        m.m21, 1, m.m14 * m.m32 * m.m41, -1, m.m12 * m.m34 * m.m41, -1, m.m14 * m.m31 * m.m42, 1,
        m.m11 * m.m34 * m.m42, 1, m.m12 * m.m31 * m.m44, -1, m.m11 * m.m32 * m.m44,
    );
    lemma_four_factors(m.m21, m.m14, m.m32, m.m41);
    lemma_four_factors(m.m21, m.m12, m.m34, m.m41);
    lemma_four_factors(m.m21, m.m14, m.m31, m.m42);
    lemma_four_factors(m.m21, m.m11, m.m34, m.m42);
    lemma_four_factors(m.m21, m.m12, m.m31, m.m44);
    lemma_four_factors(m.m21, m.m11, m.m32, m.m44);
    lemma_times_six(
        m.m31, 1, m.m12 * m.m24 * m.m41, -1, m.m14 * m.m22 * m.m41, 1, m.m14 * m.m21 * m.m42, -1,
        m.m11 * m.m24 * m.m42, -1, m.m12 * m.m21 * m.m44, 1, m.m11 * m.m22 * m.m44,
    );
    lemma_four_factors(m.m31, m.m12, m.m24, m.m41);
    lemma_four_factors(m.m31, m.m14, m.m22, m.m41);
    lemma_four_factors(m.m31, m.m14, m.m21, m.m42);
    lemma_four_factors(m.m31, m.m11, m.m24, m.m42);
    lemma_four_factors(m.m31, m.m12, m.m21, m.m44);
    lemma_four_factors(m.m31, m.m11, m.m22, m.m44);
    lemma_times_six(
        m.m41, 1, m.m14 * m.m22 * m.m31, -1, m.m12 * m.m24 * m.m31, -1, m.m14 * m.m21 * m.m32, 1,
        m.m11 * m.m24 * m.m32, 1, m.m12 * m.m21 * m.m34, -1, m.m11 * m.m22 * m.m34,
    );
    lemma_four_factors(m.m41, m.m14, m.m22, m.m31);
    lemma_four_factors(m.m41, m.m12, m.m24, m.m31);
    lemma_four_factors(m.m41, m.m14, m.m21, m.m32);
    lemma_four_factors(m.m41, m.m11, m.m24, m.m32);
    lemma_four_factors(m.m41, m.m12, m.m21, m.m34);
    lemma_four_factors(m.m41, m.m11, m.m22, m.m34);
}

/// Row 3 of the adjugate of a matrix times column 2 of the matrix is zero.
proof fn lemma_adjugate_matrix_32(m: Mat4)
    ensures
        ({
            let a = m.adjugate::<i64>();
            a.m31 * m.m12 + a.m32 * m.m22 + a.m33 * m.m32 + a.m34 * m.m42 == 0
        }),
{
    lemma_times_six(
        m.m12, 1, m.m22 * m.m34 * m.m41, -1, m.m24 * m.m32 * m.m41, 1, m.m24 * m.m31 * m.m42, -1,
        m.m21 * m.m34 * m.m42, -1, m.m22 * m.m31 * m.m44, 1, m.m21 * m.m32 * m.m44,
    );
    lemma_four_factors(m.m12, m.m22, m.m34, m.m41);
    lemma_four_factors(m.m12, m.m24, m.m32, m.m41);
    lemma_four_factors(m.m12, m.m24, m.m31, m.m42);
    lemma_four_factors(m.m12, m.m21, m.m34, m.m42);
    lemma_four_factors(m.m12, m.m22, m.m31, m.m44);
    lemma_four_factors(m.m12, m.m21, m.m32, m.m44);
    lemma_times_six(
        m.m22, 1, m.m14 * m.m32 * m.m41, -1, m.m12 * m.m34 * m.m41, -1, m.m14 * m.m31 * m.m42, 1,
        m.m11 * m.m34 * m.m42, 1, m.m12 * m.m31 * m.m44, -1, m.m11 * m.m32 * m.m44,
    );
    lemma_four_factors(m.m22, m.m14, m.m32, m.m41);
    lemma_four_factors(m.m22, m.m12, m.m34, m.m41);
    lemma_four_factors(m.m22, m.m14, m.m31, m.m42);
    lemma_four_factors(m.m22, m.m11, m.m34, m.m42);
    lemma_four_factors(m.m22, m.m12, m.m31, m.m44);
    lemma_four_factors(m.m22, m.m11, m.m32, m.m44);
    lemma_times_six(
        m.m32, 1, m.m12 * m.m24 * m.m41, -1, m.m14 * m.m22 * m.m41, 1, m.m14 * m.m21 * m.m42, -1,
        m.m11 * m.m24 * m.m42, -1, m.m12 * m.m21 * m.m44, 1, m.m11 * m.m22 * m.m44,
    );
    lemma_four_factors(m.m32, m.m12, m.m24, m.m41);
    lemma_four_factors(m.m32, m.m14, m.m22, m.m41);
    lemma_four_factors(m.m32, m.m14, m.m21, m.m42);
    lemma_four_factors(m.m32, m.m11, m.m24, m.m42);
    lemma_four_factors(m.m32, m.m12, m.m21, m.m44);
    lemma_four_factors(m.m32, m.m11, m.m22, m.m44);
    lemma_times_six(
        m.m42, 1, m.m14 * m.m22 * m.m31, -1, m.m12 * m.m24 * m.m31, -1, m.m14 * m.m21 * m.m32, 1,
        m.m11 * m.m24 * m.m32, 1, m.m12 * m.m21 * m.m34, -1, m.m11 * m.m22 * m.m34,
    );
    lemma_four_factors(m.m42, m.m14, m.m22, m.m31);
    lemma_four_factors(m.m42, m.m12, m.m24, m.m31);
    lemma_four_factors(m.m42, m.m14, m.m21, m.m32);
    lemma_four_factors(m.m42, m.m11, m.m24, m.m32);
    lemma_four_factors(m.m42, m.m12, m.m21, m.m34);
    lemma_four_factors(m.m42, m.m11, m.m22, m.m34);
}

/// Row 3 of the adjugate of a matrix times column 3 of the matrix is the determinant.
proof fn lemma_adjugate_matrix_33(m: Mat4)
    ensures
        ({
            let a = m.adjugate::<i64>();
            a.m31 * m.m13 + a.m32 * m.m23 + a.m33 * m.m33 + a.m34 * m.m43 == m.determinant::<i64>()
        }),
{
    lemma_times_six(
        m.m13, 1, m.m22 * m.m34 * m.m41, -1, m.m24 * m.m32 * m.m41, 1, m.m24 * m.m31 * m.m42, -1,
        m.m21 * m.m34 * m.m42, -1, m.m22 * m.m31 * m.m44, 1, m.m21 * m.m32 * m.m44,
    );
    lemma_four_factors(m.m13, m.m22, m.m34, m.m41);
    lemma_four_factors(m.m13, m.m24, m.m32, m.m41);
    lemma_four_factors(m.m13, m.m24, m.m31, m.m42);
    lemma_four_factors(m.m13, m.m21, m.m34, m.m42);
    lemma_four_factors(m.m13, m.m22, m.m31, m.m44);
    lemma_four_factors(m.m13, m.m21, m.m32, m.m44);
    lemma_times_six(
        m.m23, 1, m.m14 * m.m32 * m.m41, -1, m.m12 * m.m34 * m.m41, -1, m.m14 * m.m31 * m.m42, 1,
        m.m11 * m.m34 * m.m42, 1, m.m12 * m.m31 * m.m44, -1, m.m11 * m.m32 * m.m44,
    );
    lemma_four_factors(m.m23, m.m14, m.m32, m.m41);
    lemma_four_factors(m.m23, m.m12, m.m34, m.m41);
    lemma_four_factors(m.m23, m.m14, m.m31, m.m42);
    lemma_four_factors(m.m23, m.m11, m.m34, m.m42);
    lemma_four_factors(m.m23, m.m12, m.m31, m.m44);
    lemma_four_factors(m.m23, m.m11, m.m32, m.m44);
    lemma_times_six(
        m.m33, 1, m.m12 * m.m24 * m.m41, -1, m.m14 * m.m22 * m.m41, 1, m.m14 * m.m21 * m.m42, -1,
        m.m11 * m.m24 * m.m42, -1, m.m12 * m.m21 * m.m44, 1, m.m11 * m.m22 * m.m44,
    );
    lemma_four_factors(m.m33, m.m12, m.m24, m.m41);
    lemma_four_factors(m.m33, m.m14, m.m22, m.m41);
    lemma_four_factors(m.m33, m.m14, m.m21, m.m42);
    lemma_four_factors(m.m33, m.m11, m.m24, m.m42);
    lemma_four_factors(m.m33, m.m12, m.m21, m.m44);
    lemma_four_factors(m.m33, m.m11, m.m22, m.m44);
    lemma_times_six(
        m.m43, 1, m.m14 * m.m22 * m.m31, -1, m.m12 * m.m24 * m.m31, -1, m.m14 * m.m21 * m.m32, 1,
        m.m11 * m.m24 * m.m32, 1, m.m12 * m.m21 * m.m34, -1, m.m11 * m.m22 * m.m34,
    );
    lemma_four_factors(m.m43, m.m14, m.m22, m.m31);
    lemma_four_factors(m.m43, m.m12, m.m24, m.m31);
    lemma_four_factors(m.m43, m.m14, m.m21, m.m32);
    lemma_four_factors(m.m43, m.m11, m.m24, m.m32);
    lemma_four_factors(m.m43, m.m12, m.m21, m.m34);
    lemma_four_factors(m.m43, m.m11, m.m22, m.m34);
    lemma_determinant_sorted(m);
}

/// Row 3 of the adjugate of a matrix times column 4 of the matrix is zero.
proof fn lemma_adjugate_matrix_34(m: Mat4)
    ensures
        ({
            let a = m.adjugate::<i64>();
            a.m31 * m.m14 + a.m32 * m.m24 + a.m33 * m.m34 + a.m34 * m.m44 == 0
        }),
{
    lemma_times_six(
        m.m14, 1, m.m22 * m.m34 * m.m41, -1, m.m24 * m.m32 * m.m41, 1, m.m24 * m.m31 * m.m42, -1,
        m.m21 * m.m34 * m.m42, -1, m.m22 * m.m31 * m.m44, 1, m.m21 * m.m32 * m.m44,
    );
    lemma_four_factors(m.m14, m.m22, m.m34, m.m41);
    lemma_four_factors(m.m14, m.m24, m.m32, m.m41);
    lemma_four_factors(m.m14, m.m24, m.m31, m.m42);
    lemma_four_factors(m.m14, m.m21, m.m34, m.m42);
    lemma_four_factors(m.m14, m.m22, m.m31, m.m44);
    lemma_four_factors(m.m14, m.m21, m.m32, m.m44);
    lemma_times_six(
        m.m24, 1, m.m14 * m.m32 * m.m41, -1, m.m12 * m.m34 * m.m41, -1, m.m14 * m.m31 * m.m42, 1,
        m.m11 * m.m34 * m.m42, 1, m.m12 * m.m31 * m.m44, -1, m.m11 * m.m32 * m.m44,
    );
    lemma_four_factors(m.m24, m.m14, m.m32, m.m41);
    lemma_four_factors(m.m24, m.m12, m.m34, m.m41);
    lemma_four_factors(m.m24, m.m14, m.m31, m.m42);
    lemma_four_factors(m.m24, m.m11, m.m34, m.m42);
    lemma_four_factors(m.m24, m.m12, m.m31, m.m44);
    lemma_four_factors(m.m24, m.m11, m.m32, m.m44);
    lemma_times_six(
        m.m34, 1, m.m12 * m.m24 * m.m41, -1, m.m14 * m.m22 * m.m41, 1, m.m14 * m.m21 * m.m42, -1,
        m.m11 * m.m24 * m.m42, -1, m.m12 * m.m21 * m.m44, 1, m.m11 * m.m22 * m.m44,
    );
    lemma_four_factors(m.m34, m.m12, m.m24, m.m41);
    lemma_four_factors(m.m34, m.m14, m.m22, m.m41);
    lemma_four_factors(m.m34, m.m14, m.m21, m.m42);
    lemma_four_factors(m.m34, m.m11, m.m24, m.m42);
    lemma_four_factors(m.m34, m.m12, m.m21, m.m44);
    lemma_four_factors(m.m34, m.m11, m.m22, m.m44);
    lemma_times_six(
        m.m44, 1, m.m14 * m.m22 * m.m31, -1, m.m12 * m.m24 * m.m31, -1, m.m14 * m.m21 * m.m32, 1,
        m.m11 * m.m24 * m.m32, 1, m.m12 * m.m21 * m.m34, -1, m.m11 * m.m22 * m.m34,
    );
    lemma_four_factors(m.m44, m.m14, m.m22, m.m31);
    lemma_four_factors(m.m44, m.m12, m.m24, m.m31);
    lemma_four_factors(m.m44, m.m14, m.m21, m.m32);
    lemma_four_factors(m.m44, m.m11, m.m24, m.m32);
    lemma_four_factors(m.m44, m.m12, m.m21, m.m34);
    lemma_four_factors(m.m44, m.m11, m.m22, m.m34);
}

/// Row 4 of the adjugate of a matrix times column 1 of the matrix is zero.
proof fn lemma_adjugate_matrix_41(m: Mat4)
    ensures
        ({
            let a = m.adjugate::<i64>();
            a.m41 * m.m11 + a.m42 * m.m21 + a.m43 * m.m31 + a.m44 * m.m41 == 0
        }),
{
    lemma_times_six(
        m.m11, 1, m.m23 * m.m32 * m.m41, -1, m.m22 * m.m33 * m.m41, -1, m.m23 * m.m31 * m.m42, 1,
        m.m21 * m.m33 * m.m42, 1, m.m22 * m.m31 * m.m43, -1, m.m21 * m.m32 * m.m43,
    );
    lemma_four_factors(m.m11, m.m23, m.m32, m.m41);
    lemma_four_factors(m.m11, m.m22, m.m33, m.m41);
    lemma_four_factors(m.m11, m.m23, m.m31, m.m42);
    lemma_four_factors(m.m11, m.m21, m.m33, m.m42);
    lemma_four_factors(m.m11, m.m22, m.m31, m.m43);
    lemma_four_factors(m.m11, m.m21, m.m32, m.m43);
    lemma_times_six(
        m.m21, 1, m.m12 * m.m33 * m.m41, -1, m.m13 * m.m32 * m.m41, 1, m.m13 * m.m31 * m.m42, -1,
        m.m11 * m.m33 * m.m42, -1, m.m12 * m.m31 * m.m43, 1, m.m11 * m.m32 * m.m43,
    );
    lemma_four_factors(m.m21, m.m12, m.m33, m.m41);
    lemma_four_factors(m.m21, m.m13, m.m32, m.m41);
    lemma_four_factors(m.m21, m.m13, m.m31, m.m42);
    lemma_four_factors(m.m21, m.m11, m.m33, m.m42);
    lemma_four_factors(m.m21, m.m12, m.m31, m.m43);
    lemma_four_factors(m.m21, m.m11, m.m32, m.m43);
    lemma_times_six(
        m.m31, 1, m.m13 * m.m22 * m.m41, -1, m.m12 * m.m23 * m.m41, -1, m.m13 * m.m21 * m.m42, 1,
        m.m11 * m.m23 * m.m42, 1, m.m12 * m.m21 * m.m43, -1, m.m11 * m.m22 * m.m43,
    );
    lemma_four_factors(m.m31, m.m13, m.m22, m.m41);
    lemma_four_factors(m.m31, m.m12, m.m23, m.m41);
    lemma_four_factors(m.m31, m.m13, m.m21, m.m42);
    lemma_four_factors(m.m31, m.m11, m.m23, m.m42);
    lemma_four_factors(m.m31, m.m12, m.m21, m.m43);
    lemma_four_factors(m.m31, m.m11, m.m22, m.m43);
    lemma_times_six(
        m.m41, 1, m.m12 * m.m23 * m.m31, -1, m.m13 * m.m22 * m.m31, 1, m.m13 * m.m21 * m.m32, -1,
        m.m11 * m.m23 * m.m32, -1, m.m12 * m.m21 * m.m33, 1, m.m11 * m.m22 * m.m33,
    );
    lemma_four_factors(m.m41, m.m12, m.m23, m.m31);
    lemma_four_factors(m.m41, m.m13, m.m22, m.m31);
    lemma_four_factors(m.m41, m.m13, m.m21, m.m32);
    lemma_four_factors(m.m41, m.m11, m.m23, m.m32);
    lemma_four_factors(m.m41, m.m12, m.m21, m.m33);
    lemma_four_factors(m.m41, m.m11, m.m22, m.m33);
}

/// Row 4 of the adjugate of a matrix times column 2 of the matrix is zero.
proof fn lemma_adjugate_matrix_42(m: Mat4)
    ensures
        ({
            let a = m.adjugate::<i64>();
            a.m41 * m.m12 + a.m42 * m.m22 + a.m43 * m.m32 + a.m44 * m.m42 == 0
        }),
{
    lemma_times_six(
        m.m12, 1, m.m23 * m.m32 * m.m41, -1, m.m22 * m.m33 * m.m41, -1, m.m23 * m.m31 * m.m42, 1,
        m.m21 * m.m33 * m.m42, 1, m.m22 * m.m31 * m.m43, -1, m.m21 * m.m32 * m.m43,
    );
    lemma_four_factors(m.m12, m.m23, m.m32, m.m41);
    lemma_four_factors(m.m12, m.m22, m.m33, m.m41);
    lemma_four_factors(m.m12, m.m23, m.m31, m.m42);
    lemma_four_factors(m.m12, m.m21, m.m33, m.m42);
    lemma_four_factors(m.m12, m.m22, m.m31, m.m43);
    lemma_four_factors(m.m12, m.m21, m.m32, m.m43);
    lemma_times_six(
        m.m22, 1, m.m12 * m.m33 * m.m41, -1, m.m13 * m.m32 * m.m41, 1, m.m13 * m.m31 * m.m42, -1,
        m.m11 * m.m33 * m.m42, -1, m.m12 * m.m31 * m.m43, 1, m.m11 * m.m32 * m.m43,
    );
    lemma_four_factors(m.m22, m.m12, m.m33, m.m41);
    lemma_four_factors(m.m22, m.m13, m.m32, m.m41);
    lemma_four_factors(m.m22, m.m13, m.m31, m.m42);
    lemma_four_factors(m.m22, m.m11, m.m33, m.m42);
    lemma_four_factors(m.m22, m.m12, m.m31, m.m43);
    lemma_four_factors(m.m22, m.m11, m.m32, m.m43);
    lemma_times_six(
        m.m32, 1, m.m13 * m.m22 * m.m41, -1, m.m12 * m.m23 * m.m41, -1, m.m13 * m.m21 * m.m42, 1,
        m.m11 * m.m23 * m.m42, 1, m.m12 * m.m21 * m.m43, -1, m.m11 * m.m22 * m.m43,
    );
    lemma_four_factors(m.m32, m.m13, m.m22, m.m41);
    lemma_four_factors(m.m32, m.m12, m.m23, m.m41);
    lemma_four_factors(m.m32, m.m13, m.m21, m.m42);
    lemma_four_factors(m.m32, m.m11, m.m23, m.m42);
    lemma_four_factors(m.m32, m.m12, m.m21, m.m43);
    lemma_four_factors(m.m32, m.m11, m.m22, m.m43);
    lemma_times_six(
        m.m42, 1, m.m12 * m.m23 * m.m31, -1, m.m13 * m.m22 * m.m31, 1, m.m13 * m.m21 * m.m32, -1,
        m.m11 * m.m23 * m.m32, -1, m.m12 * m.m21 * m.m33, 1, m.m11 * m.m22 * m.m33,
    );
    lemma_four_factors(m.m42, m.m12, m.m23, m.m31);
    lemma_four_factors(m.m42, m.m13, m.m22, m.m31);
    lemma_four_factors(m.m42, m.m13, m.m21, m.m32);
    lemma_four_factors(m.m42, m.m11, m.m23, m.m32);
    lemma_four_factors(m.m42, m.m12, m.m21, m.m33);
    lemma_four_factors(m.m42, m.m11, m.m22, m.m33);
}

/// Row 4 of the adjugate of a matrix times column 3 of the matrix is zero.
proof fn lemma_adjugate_matrix_43(m: Mat4)
    ensures
        ({
            let a = m.adjugate::<i64>();
            a.m41 * m.m13 + a.m42 * m.m23 + a.m43 * m.m33 + a.m44 * m.m43 == 0
        }),
{
    lemma_times_six(
        m.m13, 1, m.m23 * m.m32 * m.m41, -1, m.m22 * m.m33 * m.m41, -1, m.m23 * m.m31 * m.m42, 1,
        m.m21 * m.m33 * m.m42, 1, m.m22 * m.m31 * m.m43, -1, m.m21 * m.m32 * m.m43,
    );
    lemma_four_factors(m.m13, m.m23, m.m32, m.m41);
    lemma_four_factors(m.m13, m.m22, m.m33, m.m41);
    lemma_four_factors(m.m13, m.m23, m.m31, m.m42);
    lemma_four_factors(m.m13, m.m21, m.m33, m.m42);
    lemma_four_factors(m.m13, m.m22, m.m31, m.m43);
    lemma_four_factors(m.m13, m.m21, m.m32, m.m43);
    lemma_times_six(
        m.m23, 1, m.m12 * m.m33 * m.m41, -1, m.m13 * m.m32 * m.m41, 1, m.m13 * m.m31 * m.m42, -1,
        m.m11 * m.m33 * m.m42, -1, m.m12 * m.m31 * m.m43, 1, m.m11 * m.m32 * m.m43,
    );
    lemma_four_factors(m.m23, m.m12, m.m33, m.m41);
    lemma_four_factors(m.m23, m.m13, m.m32, m.m41);
    lemma_four_factors(m.m23, m.m13, m.m31, m.m42);
    lemma_four_factors(m.m23, m.m11, m.m33, m.m42);
    lemma_four_factors(m.m23, m.m12, m.m31, m.m43);
    lemma_four_factors(m.m23, m.m11, m.m32, m.m43);
    lemma_times_six(
        m.m33, 1, m.m13 * m.m22 * m.m41, -1, m.m12 * m.m23 * m.m41, -1, m.m13 * m.m21 * m.m42, 1,
        m.m11 * m.m23 * m.m42, 1, m.m12 * m.m21 * m.m43, -1, m.m11 * m.m22 * m.m43,
    );
    lemma_four_factors(m.m33, m.m13, m.m22, m.m41);
    lemma_four_factors(m.m33, m.m12, m.m23, m.m41);
    lemma_four_factors(m.m33, m.m13, m.m21, m.m42);
    lemma_four_factors(m.m33, m.m11, m.m23, m.m42);
    lemma_four_factors(m.m33, m.m12, m.m21, m.m43);
    lemma_four_factors(m.m33, m.m11, m.m22, m.m43);
    lemma_times_six(
        m.m43, 1, m.m12 * m.m23 * m.m31, -1, m.m13 * m.m22 * m.m31, 1, m.m13 * m.m21 * m.m32, -1,
        m.m11 * m.m23 * m.m32, -1, m.m12 * m.m21 * m.m33, 1, m.m11 * m.m22 * m.m33,
    );
    lemma_four_factors(m.m43, m.m12, m.m23, m.m31);
    lemma_four_factors(m.m43, m.m13, m.m22, m.m31);
    lemma_four_factors(m.m43, m.m13, m.m21, m.m32);
    lemma_four_factors(m.m43, m.m11, m.m23, m.m32);
    lemma_four_factors(m.m43, m.m12, m.m21, m.m33);
    lemma_four_factors(m.m43, m.m11, m.m22, m.m33);
}

/// Row 4 of the adjugate of a matrix times column 4 of the matrix is the determinant.
proof fn lemma_adjugate_matrix_44(m: Mat4)
    ensures
        ({
            let a = m.adjugate::<i64>();
            a.m41 * m.m14 + a.m42 * m.m24 + a.m43 * m.m34 + a.m44 * m.m44 == m.determinant::<i64>()
        }),
{
    lemma_times_six(
        m.m14, 1, m.m23 * m.m32 * m.m41, -1, m.m22 * m.m33 * m.m41, -1, m.m23 * m.m31 * m.m42, 1,
        m.m21 * m.m33 * m.m42, 1, m.m22 * m.m31 * m.m43, -1, m.m21 * m.m32 * m.m43,
    );
    lemma_four_factors(m.m14, m.m23, m.m32, m.m41);
    lemma_four_factors(m.m14, m.m22, m.m33, m.m41);
    lemma_four_factors(m.m14, m.m23, m.m31, m.m42);
    lemma_four_factors(m.m14, m.m21, m.m33, m.m42);
    lemma_four_factors(m.m14, m.m22, m.m31, m.m43);
    lemma_four_factors(m.m14, m.m21, m.m32, m.m43);
    lemma_times_six(
        m.m24, 1, m.m12 * m.m33 * m.m41, -1, m.m13 * m.m32 * m.m41, 1, m.m13 * m.m31 * m.m42, -1,
        m.m11 * m.m33 * m.m42, -1, m.m12 * m.m31 * m.m43, 1, m.m11 * m.m32 * m.m43,
    );
    lemma_four_factors(m.m24, m.m12, m.m33, m.m41);
    lemma_four_factors(m.m24, m.m13, m.m32, m.m41);
    lemma_four_factors(m.m24, m.m13, m.m31, m.m42);
    lemma_four_factors(m.m24, m.m11, m.m33, m.m42);
    lemma_four_factors(m.m24, m.m12, m.m31, m.m43);
    lemma_four_factors(m.m24, m.m11, m.m32, m.m43);
    lemma_times_six(
        m.m34, 1, m.m13 * m.m22 * m.m41, -1, m.m12 * m.m23 * m.m41, -1, m.m13 * m.m21 * m.m42, 1,
        m.m11 * m.m23 * m.m42, 1, m.m12 * m.m21 * m.m43, -1, m.m11 * m.m22 * m.m43,
    );
    lemma_four_factors(m.m34, m.m13, m.m22, m.m41);
    lemma_four_factors(m.m34, m.m12, m.m23, m.m41);
    lemma_four_factors(m.m34, m.m13, m.m21, m.m42);
    lemma_four_factors(m.m34, m.m11, m.m23, m.m42);
    lemma_four_factors(m.m34, m.m12, m.m21, m.m43);
    lemma_four_factors(m.m34, m.m11, m.m22, m.m43);
    lemma_times_six(
        m.m44, 1, m.m12 * m.m23 * m.m31, -1, m.m13 * m.m22 * m.m31, 1, m.m13 * m.m21 * m.m32, -1,
        m.m11 * m.m23 * m.m32, -1, m.m12 * m.m21 * m.m33, 1, m.m11 * m.m22 * m.m33,
    );
    lemma_four_factors(m.m44, m.m12, m.m23, m.m31);
    lemma_four_factors(m.m44, m.m13, m.m22, m.m31);
    lemma_four_factors(m.m44, m.m13, m.m21, m.m32);
    lemma_four_factors(m.m44, m.m11, m.m23, m.m32);
    lemma_four_factors(m.m44, m.m12, m.m21, m.m33);
    lemma_four_factors(m.m44, m.m11, m.m22, m.m33);
    lemma_determinant_sorted(m);
}

/// The sum of four products, each with a factor multiplied by `s`, is `s`
/// times the sum of the products.
proof fn lemma_scaled_row(
    x1: int, a1: int, x2: int, a2: int, x3: int, a3: int, x4: int, a4: int, s: int,
)
    ensures
        x1 * (a1 * s)
            + x2 * (a2 * s) + x3 * (a3 * s) + x4 * (a4 * s) == (x1 * a1 + x2 * a2 + x3 * a3
            + x4 * a4) * s,
        (a1 * s) * x1
            + (a2 * s) * x2 + (a3 * s) * x3 + (a4 * s) * x4 == (a1 * x1 + a2 * x2 + a3 * x3
            + a4 * x4) * s,
{
    assert(x1 * (a1 * s) == (x1 * a1) * s) by (nonlinear_arith);
    assert(x2 * (a2 * s) == (x2 * a2) * s) by (nonlinear_arith);
    assert(x3 * (a3 * s) == (x3 * a3) * s) by (nonlinear_arith);
    assert(x4 * (a4 * s) == (x4 * a4) * s) by (nonlinear_arith);
    assert((a1 * s) * x1 == (a1 * x1) * s) by (nonlinear_arith);
    assert((a2 * s) * x2 == (a2 * x2) * s) by (nonlinear_arith);
    assert((a3 * s) * x3 == (a3 * x3) * s) by (nonlinear_arith);
    assert((a4 * s) * x4 == (a4 * x4) * s) by (nonlinear_arith);
    assert((x1 * a1) * s + (x2 * a2) * s + (x3 * a3) * s + (x4 * a4) * s == (x1 * a1 + x2 * a2 + x3
        * a3 + x4 * a4) * s) by (nonlinear_arith);
    assert((a1 * x1) * s + (a2 * x2) * s + (a3 * x3) * s + (a4 * x4) * s == (a1 * x1 + a2 * x2 + a3
        * x3 + a4 * x4) * s) by (nonlinear_arith);
}

/// Over the integers, a matrix of determinant `d`, `d` being `1` or `-1`,
/// times `d` times its adjugate is the identity, in either order.
proof fn lemma_inverse_i64(m: Mat4)
    requires
        m.determinant::<i64>() == 1 || m.determinant::<i64>() == -1,
    ensures
        m.product::<i64>(m.adjugate::<i64>().mul_s::<i64>(m.determinant::<i64>())) == Mat4::identity::<
            i64,
        >(),
        m.adjugate::<i64>().mul_s::<i64>(m.determinant::<i64>()).product::<i64>(m) == Mat4::identity::<
            i64,
        >(),
{
    let a = m.adjugate::<i64>();
    let d = m.determinant::<i64>();
    assert(d * d == 1) by (nonlinear_arith)
        requires
            d == 1 || d == -1,
    ;
    assert(0 * d == 0) by (nonlinear_arith);
    lemma_matrix_adjugate_11(m);
    lemma_adjugate_matrix_11(m);
    lemma_scaled_row(m.m11, a.m11, m.m12, a.m21, m.m13, a.m31, m.m14, a.m41, d);
    lemma_scaled_row(m.m11, a.m11, m.m21, a.m12, m.m31, a.m13, m.m41, a.m14, d);
    lemma_matrix_adjugate_12(m);
    lemma_adjugate_matrix_12(m);
    lemma_scaled_row(m.m11, a.m12, m.m12, a.m22, m.m13, a.m32, m.m14, a.m42, d);
    lemma_scaled_row(m.m12, a.m11, m.m22, a.m12, m.m32, a.m13, m.m42, a.m14, d);
    lemma_matrix_adjugate_13(m);
    lemma_adjugate_matrix_13(m);
    lemma_scaled_row(m.m11, a.m13, m.m12, a.m23, m.m13, a.m33, m.m14, a.m43, d);
    lemma_scaled_row(m.m13, a.m11, m.m23, a.m12, m.m33, a.m13, m.m43, a.m14, d);
    lemma_matrix_adjugate_14(m);
    lemma_adjugate_matrix_14(m);
    lemma_scaled_row(m.m11, a.m14, m.m12, a.m24, m.m13, a.m34, m.m14, a.m44, d);
    lemma_scaled_row(m.m14, a.m11, m.m24, a.m12, m.m34, a.m13, m.m44, a.m14, d);
    lemma_matrix_adjugate_21(m);
    lemma_adjugate_matrix_21(m);
    lemma_scaled_row(m.m21, a.m11, m.m22, a.m21, m.m23, a.m31, m.m24, a.m41, d);
    lemma_scaled_row(m.m11, a.m21, m.m21, a.m22, m.m31, a.m23, m.m41, a.m24, d);
    lemma_matrix_adjugate_22(m);
    lemma_adjugate_matrix_22(m);
    lemma_scaled_row(m.m21, a.m12, m.m22, a.m22, m.m23, a.m32, m.m24, a.m42, d);
    lemma_scaled_row(m.m12, a.m21, m.m22, a.m22, m.m32, a.m23, m.m42, a.m24, d);
    lemma_matrix_adjugate_23(m);
    lemma_adjugate_matrix_23(m);
    lemma_scaled_row(m.m21, a.m13, m.m22, a.m23, m.m23, a.m33, m.m24, a.m43, d);
    lemma_scaled_row(m.m13, a.m21, m.m23, a.m22, m.m33, a.m23, m.m43, a.m24, d);
    lemma_matrix_adjugate_24(m);
    lemma_adjugate_matrix_24(m);
    lemma_scaled_row(m.m21, a.m14, m.m22, a.m24, m.m23, a.m34, m.m24, a.m44, d);
    lemma_scaled_row(m.m14, a.m21, m.m24, a.m22, m.m34, a.m23, m.m44, a.m24, d);
    lemma_matrix_adjugate_31(m);
    lemma_adjugate_matrix_31(m);
    lemma_scaled_row(m.m31, a.m11, m.m32, a.m21, m.m33, a.m31, m.m34, a.m41, d);
    lemma_scaled_row(m.m11, a.m31, m.m21, a.m32, m.m31, a.m33, m.m41, a.m34, d);
    lemma_matrix_adjugate_32(m);
    lemma_adjugate_matrix_32(m);
    lemma_scaled_row(m.m31, a.m12, m.m32, a.m22, m.m33, a.m32, m.m34, a.m42, d);
    lemma_scaled_row(m.m12, a.m31, m.m22, a.m32, m.m32, a.m33, m.m42, a.m34, d);
    lemma_matrix_adjugate_33(m);
    lemma_adjugate_matrix_33(m);
    lemma_scaled_row(m.m31, a.m13, m.m32, a.m23, m.m33, a.m33, m.m34, a.m43, d);
    lemma_scaled_row(m.m13, a.m31, m.m23, a.m32, m.m33, a.m33, m.m43, a.m34, d);
    lemma_matrix_adjugate_34(m);
    lemma_adjugate_matrix_34(m);
    lemma_scaled_row(m.m31, a.m14, m.m32, a.m24, m.m33, a.m34, m.m34, a.m44, d);
    lemma_scaled_row(m.m14, a.m31, m.m24, a.m32, m.m34, a.m33, m.m44, a.m34, d);
    lemma_matrix_adjugate_41(m);
    lemma_adjugate_matrix_41(m);
    lemma_scaled_row(m.m41, a.m11, m.m42, a.m21, m.m43, a.m31, m.m44, a.m41, d);
    lemma_scaled_row(m.m11, a.m41, m.m21, a.m42, m.m31, a.m43, m.m41, a.m44, d);
    lemma_matrix_adjugate_42(m);
    lemma_adjugate_matrix_42(m);
    lemma_scaled_row(m.m41, a.m12, m.m42, a.m22, m.m43, a.m32, m.m44, a.m42, d);
    lemma_scaled_row(m.m12, a.m41, m.m22, a.m42, m.m32, a.m43, m.m42, a.m44, d);
    lemma_matrix_adjugate_43(m);
    lemma_adjugate_matrix_43(m);
    lemma_scaled_row(m.m41, a.m13, m.m42, a.m23, m.m43, a.m33, m.m44, a.m43, d);
    lemma_scaled_row(m.m13, a.m41, m.m23, a.m42, m.m33, a.m43, m.m43, a.m44, d);
    lemma_matrix_adjugate_44(m);
    lemma_adjugate_matrix_44(m);
    lemma_scaled_row(m.m41, a.m14, m.m42, a.m24, m.m43, a.m34, m.m44, a.m44, d);
    lemma_scaled_row(m.m14, a.m41, m.m24, a.m42, m.m34, a.m43, m.m44, a.m44, d);
}

/// Over integral scalars, a 3d transformation whose determinant is `1` or
/// `-1` composed with its inverse, in either order, is the identity.
pub proof fn law_matrix4d_inverse<T: Scalar>(m: Mat4)
    requires
        integral::<T>(),
        m.determinant::<T>() == 1 || m.determinant::<T>() == -1,
    ensures
        m.product::<T>(m.inverse::<T>()) == Mat4::identity::<T>(),
        m.inverse::<T>().product::<T>(m) == Mat4::identity::<T>(),
{
    let d = m.determinant::<T>();
    assert(m.determinant::<T>() == m.determinant::<i64>());
    assert(m.adjugate::<T>() == m.adjugate::<i64>());
    assert(trunc_div(1, d) == d) by {
        if d == 1 {
            assert(1int / 1 == 1);
        } else {
            assert(1int / (-1int) == -1) by (nonlinear_arith);
        }
    }
    let inv = m.adjugate::<i64>().mul_s::<i64>(d);
    assert(m.inverse::<T>() == inv);
    lemma_inverse_i64(m);
    assert(m.product::<T>(inv) == m.product::<i64>(inv));
    assert(inv.product::<T>(m) == inv.product::<i64>(m));
}

} // verus!
