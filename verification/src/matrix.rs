use vstd::prelude::*;
use crate::length::UnknownUnit;
use crate::matrix4d::TypedMatrix4D;
use crate::model::Mat4;
use crate::num::Scalar;

verus! {

/// A 4 by 4 matrix with no units.
pub type Matrix4<T> = TypedMatrix4D<T, UnknownUnit, UnknownUnit>;

/// The untyped matrix with the given terms, in row-major order.
#[allow(non_snake_case)]
pub fn Matrix4<T: Copy>(
    m11: T, m12: T, m13: T, m14: T,
    m21: T, m22: T, m23: T, m24: T,
    m31: T, m32: T, m33: T, m34: T,
    m41: T, m42: T, m43: T, m44: T,
) -> (r: Matrix4<T>)
    ensures
        r.m11 == m11,
        r.m12 == m12,
        r.m13 == m13,
        r.m14 == m14,
        r.m21 == m21,
        r.m22 == m22,
        r.m23 == m23,
        r.m24 == m24,
        r.m31 == m31,
        r.m32 == m32,
        r.m33 == m33,
        r.m34 == m34,
        r.m41 == m41,
        r.m42 == m42,
        r.m43 == m43,
        r.m44 == m44,
{
    TypedMatrix4D::new(
        m11, m12, m13, m14,
        m21, m22, m23, m24,
        m31, m32, m33, m34,
        m41, m42, m43, m44,
    )
}

/// The untyped orthographic projection of the box between the given planes.
pub fn ortho<T: Scalar>(left: T, right: T, bottom: T, top: T, near: T, far: T) -> (r: Matrix4<T>)
    requires
        Mat4::ortho_fits::<T>(
            left.val(),
            right.val(),
            bottom.val(),
            top.val(),
            near.val(),
            far.val(),
        ),
    ensures
        r@ == Mat4::ortho::<T>(
            left.val(), right.val(), bottom.val(), top.val(), near.val(), far.val(),
        ),
{
    TypedMatrix4D::ortho(left, right, bottom, top, near, far)
}

/// The untyped transformation that leaves every point where it is.
pub fn identity<T: Scalar>() -> (r: Matrix4<T>)
    ensures
        r@ == Mat4::identity::<T>(),
{
    TypedMatrix4D::identity()
}

} // verus!
